//! Path rules of the command-line surface: where an issued certificate's
//! key and certificate files live, relative to the authority's directory.

use vstd::prelude::*;
use vstd::string::StringExecFns;

verus! {

/// The per-serial directory, relative to the authority's directory.
pub open spec fn certificate_dir_chars(serial_hex: Seq<char>) -> Seq<char> {
    "certificates/"@ + serial_hex
}

/// The directory holding one issued certificate's files: the certificates
/// tree, keyed by the serial's hexadecimal form.
pub fn certificate_dir(serial_hex: &str) -> (r: String)
    ensures
        r@ == certificate_dir_chars(serial_hex@),
{
    let s = String::from_str("certificates/");
    s.concat(serial_hex)
}

/// The issued private key's file name inside its per-serial directory.
pub fn key_file_name() -> (r: String)
    ensures
        r@ == "key.crt"@,
{
    "key.crt".to_owned()
}

/// The issued certificate's file name inside its per-serial directory.
pub fn certificate_file_name() -> (r: String)
    ensures
        r@ == "crt.crt"@,
{
    "crt.crt".to_owned()
}

} // verus!
