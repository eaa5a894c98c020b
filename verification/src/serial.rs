//! Encodings of certificate serial numbers.
//!
//! A serial arrives as the big-endian bytes of an arbitrary-precision
//! non-negative integer. The listing and the per-serial directory names use
//! its canonical upper-case hexadecimal form; the ledger stores its decimal
//! form. Both encoders are verified against the digit expansion of the
//! bytes' integer value.

use vstd::prelude::*;

use crate::bytes::copy_bytes;
use crate::strutil::{dec_char_digit, dec_char_value, dec_digit, dec_digit_char, hex_digit,
    hex_digit_char, is_dec_digit, string_push};
use vstd::string::StrSliceExecFns;

verus! {

/// The integer value of big-endian bytes.
pub open spec fn be_bytes_value(b: Seq<u8>) -> nat
    decreases b.len(),
{
    if b.len() == 0 {
        0
    } else {
        (be_bytes_value(b.drop_last()) * 256 + b.last()) as nat
    }
}

/// The canonical upper-case hexadecimal digits of `n`: no leading zeros,
/// a single zero digit for zero.
pub open spec fn hex_digits(n: nat) -> Seq<char>
    decreases n,
{
    if n < 16 {
        seq![hex_digit(n)]
    } else {
        hex_digits(n / 16) + seq![hex_digit(n % 16)]
    }
}

/// The canonical decimal digits of `n`: no leading zeros, a single zero
/// digit for zero.
pub open spec fn dec_digits(n: nat) -> Seq<char>
    decreases n,
{
    if n < 10 {
        seq![dec_digit(n)]
    } else {
        dec_digits(n / 10) + seq![dec_digit(n % 10)]
    }
}

/// Bytes are worth zero exactly when every byte is zero.
proof fn lemma_value_zero_iff(b: Seq<u8>)
    ensures
        be_bytes_value(b) == 0 <==> (forall|k: int| 0 <= k < b.len() ==> b[k] == 0),
    decreases b.len(),
{
    if b.len() > 0 {
        lemma_value_zero_iff(b.drop_last());
        if be_bytes_value(b) == 0 {
            assert(be_bytes_value(b.drop_last()) == 0) by (nonlinear_arith)
                requires
                    (be_bytes_value(b.drop_last()) * 256 + b.last()) as nat == 0,
            ;
            assert(forall|k: int| 0 <= k < b.len() - 1 ==> b[k] == b.drop_last()[k]);
        } else {
            if forall|k: int| 0 <= k < b.len() ==> b[k] == 0 {
                assert(forall|k: int| 0 <= k < b.len() - 1 ==> b.drop_last()[k] == 0);
                assert(b.last() == 0);
            }
        }
    }
}

/// A leading zero byte does not change the value.
proof fn lemma_value_drop_leading_zero(b: Seq<u8>)
    requires
        b.len() > 0,
        b[0] == 0,
    ensures
        be_bytes_value(b) == be_bytes_value(b.skip(1)),
    decreases b.len(),
{
    if b.len() == 1 {
        assert(b.skip(1) =~= Seq::<u8>::empty());
        assert(b.drop_last() =~= Seq::<u8>::empty());
    } else {
        assert(b.drop_last()[0] == 0);
        lemma_value_drop_leading_zero(b.drop_last());
        assert(b.drop_last().skip(1) =~= b.skip(1).drop_last());
        assert(b.skip(1).last() == b.last());
    }
}

/// Appending one byte multiplies the value by 256 and adds the byte.
proof fn lemma_value_push(b: Seq<u8>, x: u8)
    ensures
        be_bytes_value(b.push(x)) == be_bytes_value(b) * 256 + x,
{
    assert(b.push(x).drop_last() =~= b);
    assert(b.push(x).last() == x);
}

/// Extending a hexadecimal expansion by one byte appends the byte's two
/// digits, as long as the value so far is positive.
proof fn lemma_hex_digits_push_byte(v: nat, x: u8)
    requires
        v > 0,
    ensures
        hex_digits((v * 256 + x) as nat) == hex_digits(v) + seq![
            hex_digit((x / 16) as nat),
            hex_digit((x % 16) as nat),
        ],
{
    let n: nat = (v * 256 + x) as nat;
    assert(n >= 256) by (nonlinear_arith)
        requires
            v > 0,
            n == v * 256 + x,
    ;
    assert(n / 16 == v * 16 + x / 16 && n % 16 == x % 16) by (nonlinear_arith)
        requires
            n == v * 256 + x,
            x < 256,
    ;
    let h: nat = (v * 16 + (x / 16) as nat) as nat;
    assert(h >= 16) by (nonlinear_arith)
        requires
            v > 0,
            h == v * 16 + (x / 16) as nat,
    ;
    assert(h / 16 == v && h % 16 == (x / 16) as nat) by (nonlinear_arith)
        requires
            h == v * 16 + (x / 16) as nat,
            x / 16 < 16,
    ;
    assert(hex_digits(n) == hex_digits(h) + seq![hex_digit((x % 16) as nat)]);
    assert(hex_digits(h) == hex_digits(v) + seq![hex_digit((x / 16) as nat)]);
    assert(hex_digits(n) =~= hex_digits(v) + seq![
        hex_digit((x / 16) as nat),
        hex_digit((x % 16) as nat),
    ]);
}

/// The canonical upper-case hexadecimal form of a big-endian serial: the
/// digits of its integer value, without leading zeros ("0" for zero).
pub fn serial_hex(bytes: &[u8]) -> (r: String)
    ensures
        r@ == hex_digits(be_bytes_value(bytes@)),
{
    let n = bytes.len();
    let mut start: usize = 0;
    while start < n && bytes[start] == 0
        invariant
            n == bytes@.len(),
            0 <= start <= n,
            forall|k: int| 0 <= k < start ==> bytes@[k] == 0,
        decreases n - start,
    {
        start = start + 1;
    }
    proof {
        lemma_value_skip_zeros(bytes@, start as int);
    }
    if start == n {
        proof {
            assert(bytes@.skip(n as int) =~= Seq::<u8>::empty());
            reveal_strlit("0");
            assert("0"@ =~= seq![hex_digit(0)]);
        }
        return "0".to_owned();
    }
    let mut s = String::new();
    let first = bytes[start];
    if first < 16 {
        string_push(&mut s, hex_digit_char(first));
        proof {
            assert(bytes@.skip(start as int).take(1).drop_last() =~= Seq::<u8>::empty());
            assert(bytes@.skip(start as int).take(1).last() == first);
            assert(be_bytes_value(Seq::<u8>::empty()) == 0);
            assert(be_bytes_value(bytes@.skip(start as int).take(1)) == first as nat);
            assert(s@ =~= seq![hex_digit(first as nat)]);
            assert(s@ =~= hex_digits(be_bytes_value(bytes@.skip(start as int).take(1))));
        }
    } else {
        string_push(&mut s, hex_digit_char(first / 16));
        string_push(&mut s, hex_digit_char(first % 16));
        proof {
            assert(bytes@.skip(start as int).take(1).drop_last() =~= Seq::<u8>::empty());
            assert(bytes@.skip(start as int).take(1).last() == first);
            assert(be_bytes_value(Seq::<u8>::empty()) == 0);
            assert(be_bytes_value(bytes@.skip(start as int).take(1)) == first as nat);
            assert(first as nat / 16 < 16);
            assert(hex_digits(first as nat) == hex_digits(first as nat / 16) + seq![
                hex_digit(first as nat % 16),
            ]);
            assert(s@ =~= seq![hex_digit(first as nat / 16), hex_digit(first as nat % 16)]);
            assert(s@ =~= hex_digits(be_bytes_value(bytes@.skip(start as int).take(1))));
        }
    }
    let mut i: usize = start + 1;
    while i < n
        invariant
            n == bytes@.len(),
            start < i <= n,
            bytes@[start as int] != 0,
            s@ == hex_digits(be_bytes_value(bytes@.skip(start as int).take(i - start))),
            be_bytes_value(bytes@.skip(start as int).take(i - start)) > 0,
        decreases n - i,
    {
        let ghost prefix = bytes@.skip(start as int).take(i - start);
        let ghost v = be_bytes_value(prefix);
        let x = bytes[i];
        string_push(&mut s, hex_digit_char(x / 16));
        string_push(&mut s, hex_digit_char(x % 16));
        proof {
            assert(bytes@.skip(start as int).take(i + 1 - start) =~= prefix.push(x));
            lemma_value_push(prefix, x);
            lemma_hex_digits_push_byte(v, x);
            assert(v * 256 + x > 0) by (nonlinear_arith)
                requires
                    v > 0,
            ;
        }
        i = i + 1;
    }
    proof {
        assert(bytes@.skip(start as int).take(n - start) =~= bytes@.skip(start as int));
    }
    s
}

/// The decimal characters of digit values, last digit first.
pub open spec fn rev_dec_chars(ds: Seq<u8>) -> Seq<char>
    decreases ds.len(),
{
    if ds.len() == 0 {
        Seq::empty()
    } else {
        seq![dec_digit(ds.last() as nat)] + rev_dec_chars(ds.drop_last())
    }
}

/// Reversal peels a leading digit off to the end.
proof fn lemma_rev_dec_chars_cons(x: u8, t: Seq<u8>)
    ensures
        rev_dec_chars(seq![x] + t) == rev_dec_chars(t) + seq![dec_digit(x as nat)],
    decreases t.len(),
{
    let whole = seq![x] + t;
    if t.len() == 0 {
        assert(whole =~= seq![x]);
        assert(whole.drop_last() =~= Seq::<u8>::empty());
        assert(rev_dec_chars(Seq::<u8>::empty()) =~= Seq::<char>::empty());
        assert(whole.last() == x);
        assert(rev_dec_chars(whole) =~= seq![dec_digit(x as nat)]);
        assert(rev_dec_chars(t) =~= Seq::<char>::empty());
        assert(rev_dec_chars(whole) =~= rev_dec_chars(t) + seq![dec_digit(x as nat)]);
    } else {
        assert(whole.last() == t.last());
        assert(whole.drop_last() =~= seq![x] + t.drop_last());
        lemma_rev_dec_chars_cons(x, t.drop_last());
        assert(rev_dec_chars(whole) =~= rev_dec_chars(t) + seq![dec_digit(x as nat)]);
    }
}

/// One long-division step: divides big-endian bytes by ten, returning the
/// quotient in minimal form (no leading zero byte) and the remainder.
fn div10(cur: &[u8]) -> (r: (Vec<u8>, u8))
    ensures
        ({
            let (q, rem) = r;
            &&& be_bytes_value(q@) * 10 + rem == be_bytes_value(cur@)
            &&& rem < 10
            &&& (q@.len() > 0 ==> q@[0] != 0)
            &&& q@.len() <= cur@.len()
        }),
{
    let n = cur.len();
    let mut q: Vec<u8> = Vec::new();
    let mut rem: u16 = 0;
    let mut i: usize = 0;
    while i < n
        invariant
            n == cur@.len(),
            0 <= i <= n,
            rem < 10,
            be_bytes_value(q@) * 10 + rem == be_bytes_value(cur@.take(i as int)),
            q@.len() > 0 ==> q@[0] != 0,
            q@.len() <= i,
        decreases n - i,
    {
        let ghost old_q = q@;
        let ghost old_rem = rem;
        let cur_val: u16 = rem * 256 + (cur[i] as u16);
        let qd: u16 = cur_val / 10;
        rem = cur_val % 10;
        if q.len() > 0 || qd > 0 {
            q.push(qd as u8);
        }
        proof {
            assert(qd < 256 && cur_val == qd * 10 + rem) by (nonlinear_arith)
                requires
                    cur_val < 2560,
                    qd == cur_val / 10,
                    rem == cur_val % 10,
            ;
            assert(cur@.take(i + 1).drop_last() =~= cur@.take(i as int));
            assert(cur@.take(i + 1).last() == cur@[i as int]);
            if old_q.len() == 0 && qd == 0 {
                assert(be_bytes_value(q@) * 10 + rem == be_bytes_value(cur@.take(i + 1)))
                    by (nonlinear_arith)
                    requires
                        be_bytes_value(q@) == 0,
                        old_rem * 256 + cur@[i as int] == qd * 10 + rem,
                        qd == 0,
                        be_bytes_value(cur@.take(i + 1)) == be_bytes_value(cur@.take(i as int))
                            * 256 + cur@[i as int],
                        be_bytes_value(cur@.take(i as int)) == old_rem,
                ;
            } else {
                lemma_value_push(old_q, qd as u8);
                assert(be_bytes_value(q@) * 10 + rem == be_bytes_value(cur@.take(i + 1)))
                    by (nonlinear_arith)
                    requires
                        be_bytes_value(q@) == be_bytes_value(old_q) * 256 + qd,
                        old_rem * 256 + cur@[i as int] == qd * 10 + rem,
                        be_bytes_value(cur@.take(i + 1)) == be_bytes_value(cur@.take(i as int))
                            * 256 + cur@[i as int],
                        be_bytes_value(old_q) * 10 + old_rem == be_bytes_value(
                            cur@.take(i as int),
                        ),
                ;
            }
        }
        i = i + 1;
    }
    proof {
        assert(cur@.take(n as int) =~= cur@);
    }
    (q, rem as u8)
}

/// The decimal form of a big-endian serial: the digits of its integer
/// value, without leading zeros ("0" for zero). This is the value the
/// ledger stores.
pub fn serial_decimal(bytes: &[u8]) -> (r: String)
    ensures
        r@ == dec_digits(be_bytes_value(bytes@)),
{
    let ghost orig = be_bytes_value(bytes@);
    let mut digits_rev: Vec<u8> = Vec::new();
    let mut cur: Vec<u8> = copy_bytes(bytes);
    while cur.len() > 0 || digits_rev.len() == 0
        invariant
            forall|k: int| 0 <= k < digits_rev@.len() ==> digits_rev@[k] < 10,
            cur@.len() > 0 ==> cur@[0] != 0 || digits_rev@.len() == 0,
            digits_rev@.len() == 0 ==> be_bytes_value(cur@) == orig && rev_dec_chars(
                digits_rev@,
            ) == Seq::<char>::empty(),
            digits_rev@.len() > 0 ==> dec_digits(orig) == (if be_bytes_value(cur@) > 0 {
                dec_digits(be_bytes_value(cur@))
            } else {
                Seq::<char>::empty()
            }) + rev_dec_chars(digits_rev@),
            digits_rev@.len() > 0 && cur@.len() > 0 ==> cur@[0] != 0,
        decreases be_bytes_value(cur@) + cur@.len() + (if digits_rev@.len() == 0 {
            1int
        } else {
            0int
        }),
    {
        let ghost v = be_bytes_value(cur@);
        let ghost old_digits = digits_rev@;
        let (q, rem) = div10(cur.as_slice());
        digits_rev.push(rem);
        proof {
            let qv = be_bytes_value(q@);
            assert(v == qv * 10 + rem);
            assert(digits_rev@.drop_last() =~= old_digits);
            assert(digits_rev@.last() == rem);
            assert(rev_dec_chars(digits_rev@) =~= seq![dec_digit(rem as nat)] + rev_dec_chars(
                old_digits,
            ));
            if old_digits.len() == 0 {
                assert(rev_dec_chars(old_digits) =~= Seq::<char>::empty());
                if qv > 0 {
                    assert(v >= 10) by (nonlinear_arith)
                        requires
                            v == qv * 10 + rem,
                            qv > 0,
                    ;
                    assert(v / 10 == qv && v % 10 == rem as nat) by (nonlinear_arith)
                        requires
                            v == qv * 10 + rem,
                            rem < 10,
                    ;
                    assert(dec_digits(v) =~= dec_digits(qv) + rev_dec_chars(digits_rev@));
                } else {
                    assert(v == rem as nat);
                    assert(dec_digits(v) =~= rev_dec_chars(digits_rev@));
                }
            } else {
                lemma_value_zero_iff(cur@);
                assert(v > 0);
                if qv > 0 {
                    assert(v >= 10) by (nonlinear_arith)
                        requires
                            v == qv * 10 + rem,
                            qv > 0,
                    ;
                    assert(v / 10 == qv && v % 10 == rem as nat) by (nonlinear_arith)
                        requires
                            v == qv * 10 + rem,
                            rem < 10,
                    ;
                    assert(dec_digits(v) == dec_digits(qv) + seq![dec_digit(rem as nat)]);
                } else {
                    assert(v == rem as nat);
                    assert(dec_digits(v) == seq![dec_digit(rem as nat)]);
                }
                assert(dec_digits(orig) =~= (if qv > 0 {
                    dec_digits(qv)
                } else {
                    Seq::<char>::empty()
                }) + rev_dec_chars(digits_rev@));
            }
            if q@.len() > 0 {
                lemma_value_zero_iff(q@);
                assert(qv > 0);
            } else {
                assert(qv == 0);
            }
            assert(qv < v || v == 0) by (nonlinear_arith)
                requires
                    v == qv * 10 + rem,
                    rem < 10,
            ;
        }
        cur = q;
    }
    proof {
        lemma_value_zero_iff(cur@);
        assert(dec_digits(orig) == rev_dec_chars(digits_rev@));
    }
    let mut s = String::new();
    let mut i: usize = digits_rev.len();
    while i > 0
        invariant
            i <= digits_rev@.len(),
            forall|k: int| 0 <= k < digits_rev@.len() ==> digits_rev@[k] < 10,
            s@ == rev_dec_chars(digits_rev@.skip(i as int)),
        decreases i,
    {
        i = i - 1;
        let ghost before = s@;
        string_push(&mut s, dec_digit_char(digits_rev[i]));
        proof {
            assert(digits_rev@.skip(i as int) =~= seq![digits_rev@[i as int]] + digits_rev@.skip(
                i + 1,
            ));
            lemma_rev_dec_chars_cons(digits_rev@[i as int], digits_rev@.skip(i + 1));
            assert(s@ =~= rev_dec_chars(digits_rev@.skip(i as int)));
        }
    }
    proof {
        assert(digits_rev@.skip(0) =~= digits_rev@);
    }
    s
}

/// The power of 256 with the given exponent.
pub open spec fn pow256(k: nat) -> nat
    decreases k,
{
    if k == 0 {
        1
    } else {
        256 * pow256((k - 1) as nat)
    }
}

/// Prepending one byte adds its value at the current width.
proof fn lemma_value_cons(b: u8, t: Seq<u8>)
    ensures
        be_bytes_value(seq![b] + t) == b * pow256(t.len()) + be_bytes_value(t),
    decreases t.len(),
{
    let whole = seq![b] + t;
    if t.len() == 0 {
        assert(whole =~= seq![b]);
        assert(whole.drop_last() =~= Seq::<u8>::empty());
        assert(be_bytes_value(Seq::<u8>::empty()) == 0);
        assert(pow256(0) == 1);
        assert(whole.last() == b);
        assert(be_bytes_value(whole) == b);
    } else {
        assert(whole.drop_last() =~= seq![b] + t.drop_last());
        assert(whole.last() == t.last());
        lemma_value_cons(b, t.drop_last());
        assert(be_bytes_value(whole) == (b * pow256((t.len() - 1) as nat) + be_bytes_value(
            t.drop_last(),
        )) * 256 + t.last());
        assert((b * pow256((t.len() - 1) as nat) + be_bytes_value(t.drop_last())) * 256 + t.last()
            == b * (256 * pow256((t.len() - 1) as nat)) + (be_bytes_value(t.drop_last()) * 256
            + t.last())) by (nonlinear_arith);
        assert(pow256(t.len()) == 256 * pow256((t.len() - 1) as nat));
    }
}

/// The integer value of decimal digit characters.
pub open spec fn dec_chars_value(s: Seq<char>) -> nat
    decreases s.len(),
{
    if s.len() == 0 {
        0
    } else {
        (dec_chars_value(s.drop_last()) * 10 + dec_char_value(s.last())) as nat
    }
}

/// Multiplies big-endian bytes by ten and adds a digit, keeping the
/// minimal form (no leading zero byte).
fn mul10_add(cur: &Vec<u8>, d: u8) -> (q: Vec<u8>)
    requires
        d < 10,
        cur@.len() > 0 ==> cur@[0] != 0,
    ensures
        be_bytes_value(q@) == be_bytes_value(cur@) * 10 + d,
        q@.len() > 0 ==> q@[0] != 0,
{
    let n = cur.len();
    let mut out: Vec<u8> = Vec::new();
    let mut carry: u16 = d as u16;
    let mut i: usize = n;
    while i > 0
        invariant
            n == cur@.len(),
            0 <= i <= n,
            carry < 10,
            out@.len() == n - i,
            be_bytes_value(cur@.skip(i as int)) * 10 + d == carry * pow256(out@.len())
                + be_bytes_value(out@),
            i == 0 && n > 0 && cur@[0] != 0 ==> (carry > 0 || (out@.len() > 0 && out@[0] != 0)),
        decreases i,
    {
        let ghost old_out = out@;
        let ghost old_carry = carry;
        i = i - 1;
        let b = cur[i];
        let t: u16 = (b as u16) * 10 + carry;
        carry = t / 256;
        out.insert(0, (t % 256) as u8);
        proof {
            assert(carry < 10 && t == carry * 256 + (t % 256)) by (nonlinear_arith)
                requires
                    t == b * 10 + old_carry,
                    b < 256,
                    old_carry < 10,
                    carry == t / 256,
            ;
            assert(out@ =~= seq![(t % 256) as u8] + old_out);
            lemma_value_cons((t % 256) as u8, old_out);
            assert(cur@.skip(i as int) =~= seq![b] + cur@.skip(i + 1));
            lemma_value_cons(b, cur@.skip(i + 1));
            assert(cur@.skip(i + 1).len() == old_out.len());
            assert((b * pow256(old_out.len()) + be_bytes_value(cur@.skip(i + 1))) * 10 + d == (b
                * 10) * pow256(old_out.len()) + (be_bytes_value(cur@.skip(i + 1)) * 10 + d))
                by (nonlinear_arith);
            assert((b * 10) * pow256(old_out.len()) + old_carry * pow256(old_out.len()) == t
                * pow256(old_out.len())) by (nonlinear_arith)
                requires
                    t == b * 10 + old_carry,
            ;
            assert(t * pow256(old_out.len()) == (t % 256) * pow256(old_out.len()) + carry * (256
                * pow256(old_out.len()))) by (nonlinear_arith)
                requires
                    t == carry * 256 + (t % 256),
            ;
            assert(pow256(out@.len()) == 256 * pow256(old_out.len()));
            if i == 0 && n > 0 && cur@[0] != 0 {
                assert(t >= 10) by (nonlinear_arith)
                    requires
                        t == b * 10 + old_carry,
                        b >= 1,
                ;
                assert(carry > 0 || t % 256 > 0) by (nonlinear_arith)
                    requires
                        t >= 10,
                        carry == t / 256,
                ;
            }
        }
    }
    proof {
        assert(cur@.skip(0) =~= cur@);
        assert(pow256(0) == 1);
    }
    if carry > 0 {
        let ghost old_out = out@;
        out.insert(0, carry as u8);
        proof {
            assert(out@ =~= seq![carry as u8] + old_out);
            lemma_value_cons(carry as u8, old_out);
        }
    }
    out
}

/// The big-endian bytes, in minimal form, of a serial written in decimal;
/// `None` where the text is empty or holds a character that is no decimal
/// digit. The inverse direction of `serial_decimal`.
pub fn serial_from_decimal(s: &str) -> (r: Option<Vec<u8>>)
    ensures
        r is Some <==> (s@.len() > 0 && forall|i: int|
            0 <= i < s@.len() ==> is_dec_digit(#[trigger] s@[i])),
        r matches Some(b) ==> {
            &&& be_bytes_value(b@) == dec_chars_value(s@)
            &&& (b@.len() > 0 ==> b@[0] != 0)
        },
{
    let n = s.unicode_len();
    if n == 0 {
        return None;
    }
    let mut cur: Vec<u8> = Vec::new();
    let mut i: usize = 0;
    while i < n
        invariant
            n == s@.len(),
            0 <= i <= n,
            forall|k: int| 0 <= k < i ==> is_dec_digit(#[trigger] s@[k]),
            be_bytes_value(cur@) == dec_chars_value(s@.take(i as int)),
            cur@.len() > 0 ==> cur@[0] != 0,
        decreases n - i,
    {
        let c = s.get_char(i);
        let d = match dec_char_digit(c) {
            Some(d) => d,
            None => {
                return None;
            },
        };
        cur = mul10_add(&cur, d);
        proof {
            assert(s@.take(i + 1).drop_last() =~= s@.take(i as int));
            assert(s@.take(i + 1).last() == s@[i as int]);
        }
        i = i + 1;
    }
    proof {
        assert(s@.take(n as int) =~= s@);
    }
    Some(cur)
}

/// Skipping leading zero bytes keeps the value.
proof fn lemma_value_skip_zeros(b: Seq<u8>, start: int)
    requires
        0 <= start <= b.len(),
        forall|k: int| 0 <= k < start ==> b[k] == 0,
    ensures
        be_bytes_value(b) == be_bytes_value(b.skip(start)),
    decreases start,
{
    if start > 0 {
        lemma_value_drop_leading_zero(b);
        assert(b.skip(1).skip(start - 1) =~= b.skip(start));
        lemma_value_skip_zeros(b.skip(1), start - 1);
    } else {
        assert(b.skip(0) =~= b);
    }
}

} // verus!
