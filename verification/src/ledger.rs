//! The issuance ledger and the tracked issuer that feeds it.
//!
//! One row per successful issuance, appended in the same logical operation
//! as signing. The ledger keeps its rows ordered by `not_after` descending,
//! the order in which the listing command reports them.

use vstd::prelude::*;
use vstd::seq_lib::group_seq_properties;
use vstd::string::StringExecFns;

use crate::ca::{issued_cert_ok, CertificateIssuer, IssueError};
use crate::crt::IssuedCertificate;
use crate::keys::cert_der_of;
use crate::x509::{opt_chars, opt_view, parse_cert, parse_cert_core, parse_cert_subject,
    CertModel};

verus! {

/// One issuance record: the certificate's serial (big-endian bytes), the
/// raw subject bytes, the optional name attributes, and the validity window
/// actually used for signing.
pub struct LedgerRow {
    pub serial: Vec<u8>,
    pub dn: Vec<u8>,
    pub country: Option<String>,
    pub state: Option<String>,
    pub locality: Option<String>,
    pub organization: Option<String>,
    pub organizational_unit: Option<String>,
    pub common_name: Option<String>,
    pub not_before: i64,
    pub not_after: i64,
}

impl LedgerRow {
    /// The reconstructed distinguished-name line the listing prints.
    pub open spec fn dn_line(&self) -> Seq<char> {
        "C="@ + opt_chars(self.country) + ",ST="@ + opt_chars(self.state) + ",L="@ + opt_chars(
            self.locality,
        ) + ",O="@ + opt_chars(self.organization) + ",OU="@ + opt_chars(self.organizational_unit)
            + ",CN="@ + opt_chars(self.common_name)
    }

    /// Renders the distinguished-name line, absent attributes left empty.
    pub fn render_dn(&self) -> (r: String)
        ensures
            r@ == self.dn_line(),
    {
        let mut s = String::from_str("C=");
        append_opt(&mut s, &self.country);
        s.append(",ST=");
        append_opt(&mut s, &self.state);
        s.append(",L=");
        append_opt(&mut s, &self.locality);
        s.append(",O=");
        append_opt(&mut s, &self.organization);
        s.append(",OU=");
        append_opt(&mut s, &self.organizational_unit);
        s.append(",CN=");
        append_opt(&mut s, &self.common_name);
        s
    }
}

/// Appends an optional attribute value, or nothing when absent.
fn append_opt(s: &mut String, o: &Option<String>)
    ensures
        final(s)@ == old(s)@ + opt_chars(*o),
{
    match o {
        Some(x) => {
            s.append(x.as_str());
        },
        None => {
            proof {
                assert(s@ =~= old(s)@ + opt_chars(*o));
            }
        },
    }
}

/// Rows ordered by `not_after`, newest expiry first.
pub open spec fn sorted_desc(rows: Seq<LedgerRow>) -> bool {
    forall|i: int, j: int| 0 <= i < j < rows.len() ==> rows[i].not_after >= rows[j].not_after
}

/// Whether a row records exactly what the certificate's bytes parse to.
pub open spec fn row_matches(row: LedgerRow, m: CertModel) -> bool {
    &&& row.serial@ == m.serial
    &&& row.dn@ == m.subject_raw
    &&& opt_view(row.country) == m.subject.country
    &&& opt_view(row.state) == m.subject.state
    &&& opt_view(row.locality) == m.subject.locality
    &&& opt_view(row.organization) == m.subject.organization
    &&& opt_view(row.organizational_unit) == m.subject.organizational_unit
    &&& opt_view(row.common_name) == m.subject.common_name
    &&& row.not_before == m.not_before
    &&& row.not_after == m.not_after
}

/// How many rows record a certificate with this serial.
pub open spec fn count_with_serial(rows: Seq<LedgerRow>, serial: Seq<u8>) -> nat
    decreases rows.len(),
{
    if rows.len() == 0 {
        0
    } else {
        count_with_serial(rows.drop_last(), serial) + if rows.last().serial@ == serial {
            1nat
        } else {
            0nat
        }
    }
}

/// Counting rows by serial distributes over concatenation.
pub proof fn lemma_count_with_serial_add(a: Seq<LedgerRow>, b: Seq<LedgerRow>, serial: Seq<u8>)
    ensures
        count_with_serial(a + b, serial) == count_with_serial(a, serial) + count_with_serial(
            b,
            serial,
        ),
    decreases b.len(),
{
    if b.len() == 0 {
        assert(a + b =~= a);
    } else {
        lemma_count_with_serial_add(a, b.drop_last(), serial);
        assert((a + b).drop_last() =~= a + b.drop_last());
        assert((a + b).last() == b.last());
    }
}

/// The append-only issuance record. Its view is the row sequence, kept
/// ordered by `not_after` descending.
pub struct Ledger {
    rows: Vec<LedgerRow>,
}

impl View for Ledger {
    type V = Seq<LedgerRow>;

    closed spec fn view(&self) -> Seq<LedgerRow> {
        self.rows@
    }
}

impl Ledger {
    /// An ordered ledger.
    pub open spec fn wf(&self) -> bool {
        sorted_desc(self@)
    }

    /// An empty ledger.
    pub fn new() -> (r: Self)
        ensures
            r@ == Seq::<LedgerRow>::empty(),
            r.wf(),
    {
        Ledger { rows: Vec::new() }
    }

    /// The number of recorded issuances.
    pub fn len(&self) -> (r: usize)
        ensures
            r == self@.len(),
    {
        self.rows.len()
    }

    /// The records, ordered by `not_after` descending. This is the read
    /// path of the listing command.
    pub fn entries(&self) -> (r: &Vec<LedgerRow>)
        ensures
            r@ == self@,
    {
        &self.rows
    }

    /// Appends one record, keeping the order. The new state inserts the row
    /// at some position of the old state.
    pub fn record(&mut self, row: LedgerRow)
        requires
            old(self).wf(),
        ensures
            final(self).wf(),
            final(self)@.len() == old(self)@.len() + 1,
            exists|i: int|
                0 <= i <= old(self)@.len() && final(self)@ == #[trigger] old(self)@.insert(i, row),
    {
        let n = self.rows.len();
        let mut i: usize = 0;
        while i < n && self.rows[i].not_after >= row.not_after
            invariant
                n == self.rows@.len(),
                0 <= i <= n,
                forall|k: int| 0 <= k < i ==> self.rows@[k].not_after >= row.not_after,
            decreases n - i,
        {
            i = i + 1;
        }
        assert(forall|k: int| 0 <= k < i ==> self.rows@[k].not_after >= row.not_after);
        assert(i < n ==> self.rows@[i as int].not_after < row.not_after);
        let ghost old_rows = self.rows@;
        self.rows.insert(i, row);
        proof {
            broadcast use group_seq_properties;

            old_rows.insert_ensures(i as int, row);
            assert forall|p: int, q: int|
                0 <= p < q < self.rows@.len() implies self.rows@[p].not_after
                >= self.rows@[q].not_after by {
                if p < i && q > i {
                    assert(old_rows[p].not_after >= old_rows[q - 1].not_after);
                }
            }
        }
    }
}

/// The row a tracked issuance records for this certificate: serial,
/// subject attributes and the signed validity window, straight from the
/// certificate's bytes; `None` exactly where the bytes do not parse.
pub fn ledger_row_for(issued: &IssuedCertificate) -> (r: Option<LedgerRow>)
    ensures
        r is Some <==> parse_cert(cert_der_of(issued.certificate)) is Some,
        r matches Some(row) ==> row_matches(row, parse_cert(cert_der_of(issued.certificate))->Some_0),
{
    let der = issued.der();
    let core = match parse_cert_core(der.as_slice()) {
        Some(c) => c,
        None => {
            return None;
        },
    };
    let dn = match parse_cert_subject(der.as_slice()) {
        Some(d) => d,
        None => {
            return None;
        },
    };
    Some(LedgerRow {
        serial: core.serial,
        dn: dn.raw,
        country: dn.country,
        state: dn.state,
        locality: dn.locality,
        organization: dn.organization,
        organizational_unit: dn.organizational_unit,
        common_name: dn.common_name,
        not_before: core.not_before,
        not_after: core.not_after,
    })
}

/// Why a tracked issuance failed.
#[derive(Debug)]
pub enum TrackedIssueError {
    /// The inner issuer failed; no certificate was produced.
    Issue(IssueError),
    /// The ledger write failed; a certificate was signed but not recorded.
    /// The in-memory ledger cannot fail, so only callers that mirror the
    /// ledger into an external store construct this.
    Track(String),
    /// The issuer produced bytes that do not parse as a certificate.
    InvalidCertificate,
    /// The issued certificate carries no subject identifier.
    MissingSubjectUid,
    /// The issued certificate carries no issuer identifier.
    MissingIssuerUid,
}

/// Wraps any issuer, additionally recording each issuance in the ledger
/// within the same logical operation as signing.
pub struct TrackedCertificateIssuer<I: CertificateIssuer> {
    ledger: Ledger,
    issuer: I,
}

impl<I: CertificateIssuer> TrackedCertificateIssuer<I> {
    /// The recorded rows, ordered by `not_after` descending.
    pub closed spec fn ledger_rows(&self) -> Seq<LedgerRow> {
        self.ledger@
    }

    /// The wrapped issuer.
    pub closed spec fn inner(&self) -> I {
        self.issuer
    }

    /// A usable tracked issuer: the inner issuer is ready and the ledger
    /// is ordered.
    pub open spec fn wf(&self) -> bool {
        self.inner().issuer_wf() && sorted_desc(self.ledger_rows())
    }

    /// Couples an issuer with a ledger.
    pub fn new(ledger: Ledger, issuer: I) -> (r: Self)
        ensures
            r.ledger_rows() == ledger@,
            r.inner() == issuer,
    {
        TrackedCertificateIssuer { ledger, issuer }
    }

    /// The ledger, for the read path.
    pub fn ledger(&self) -> (r: &Ledger)
        ensures
            r@ == self.ledger_rows(),
    {
        &self.ledger
    }

    /// Issues through the inner issuer, then records serial, subject
    /// attributes and the signed validity window as one new ledger row.
    /// On failure of the inner issuer nothing is recorded.
    pub fn issue(&mut self, subject: &str, duration_seconds: i64) -> (r: Result<
        IssuedCertificate,
        TrackedIssueError,
    >)
        requires
            old(self).wf(),
        ensures
            final(self).wf(),
            final(self).inner() == old(self).inner(),
            r matches Ok(ic) ==> {
                let m = parse_cert(cert_der_of(ic.certificate))->Some_0;
                &&& issued_cert_ok(old(self).inner().issuer_cert_der(), ic, subject@,
                    duration_seconds)
                &&& final(self).ledger_rows().len() == old(self).ledger_rows().len() + 1
                &&& exists|i: int, row: LedgerRow|
                    {
                        &&& 0 <= i <= old(self).ledger_rows().len()
                        &&& final(self).ledger_rows() == #[trigger] old(self).ledger_rows().insert(
                            i,
                            row,
                        )
                        &&& row_matches(row, m)
                    }
            },
            r is Err ==> final(self).ledger_rows() == old(self).ledger_rows(),
            r matches Err(e) ==> e is Issue,
    {
        let issued = match self.issuer.issue(subject, duration_seconds) {
            Ok(ic) => ic,
            Err(e) => {
                return Err(TrackedIssueError::Issue(e));
            },
        };
        let row = match ledger_row_for(&issued) {
            Some(row) => row,
            None => {
                return Err(TrackedIssueError::InvalidCertificate);
            },
        };
        self.ledger.record(row);
        Ok(issued)
    }
}

/// Law (ledger consistency): a successful tracked issuance — whose effect
/// on the ledger is the insertion `new_rows == old_rows.insert(i, row)` of
/// one row recording the certificate's parsed fields — raises the number of
/// rows carrying the certificate's serial by exactly one and leaves the
/// count of every other serial unchanged. In particular, on a fresh ledger
/// exactly one row with the issued serial exists afterwards, and its
/// validity window equals the signed certificate's window (`row_matches`).
pub proof fn lemma_tracked_issue_counts(
    old_rows: Seq<LedgerRow>,
    new_rows: Seq<LedgerRow>,
    i: int,
    row: LedgerRow,
    m: CertModel,
)
    requires
        0 <= i <= old_rows.len(),
        new_rows == old_rows.insert(i, row),
        row_matches(row, m),
    ensures
        count_with_serial(new_rows, m.serial) == count_with_serial(old_rows, m.serial) + 1,
        forall|s: Seq<u8>|
            s != m.serial ==> count_with_serial(new_rows, s) == count_with_serial(old_rows, s),
{
    let a = old_rows.subrange(0, i);
    let b = old_rows.subrange(i, old_rows.len() as int);
    let single = seq![row];
    assert(old_rows =~= a + b);
    assert(new_rows =~= a + (single + b));
    assert(single.drop_last() =~= Seq::<LedgerRow>::empty());
    assert forall|s: Seq<u8>| true implies #[trigger] count_with_serial(new_rows, s)
        == count_with_serial(old_rows, s) + (if row.serial@ == s {
        1int
    } else {
        0int
    }) by {
        lemma_count_with_serial_add(a, b, s);
        lemma_count_with_serial_add(a, single + b, s);
        lemma_count_with_serial_add(single, b, s);
        assert(count_with_serial(Seq::<LedgerRow>::empty(), s) == 0);
        assert(single.last() == row);
        assert(count_with_serial(single, s) == (if row.serial@ == s {
            1nat
        } else {
            0nat
        }));
        assert(count_with_serial(new_rows, s) == count_with_serial(a + (single + b), s));
        assert(count_with_serial(old_rows, s) == count_with_serial(a + b, s));
    }
}

/// Law (listing order): when the recorded expiries are pairwise distinct,
/// the ledger's listing order is strictly decreasing by `not_after`.
pub proof fn lemma_listing_strictly_decreasing(rows: Seq<LedgerRow>)
    requires
        sorted_desc(rows),
        forall|i: int, j: int|
            0 <= i < j < rows.len() ==> rows[i].not_after != rows[j].not_after,
    ensures
        forall|i: int, j: int| 0 <= i < j < rows.len() ==> rows[i].not_after > rows[j].not_after,
{
}

} // verus!
