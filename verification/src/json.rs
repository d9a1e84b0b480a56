//! JSON rendering primitives.
//!
//! The wire format of the upload endpoint is JSON with a strict
//! omit-if-absent rule, so the library renders its values itself and the
//! contracts pin the output character for character.  This module holds
//! the character-level building blocks: decimal renderings of integers and
//! of fixed-point [`Milli`] values, zero padding, and JSON string
//! escaping.  Output grows in a `Vec<char>` and is turned into a `String`
//! only at the very end.

use vstd::prelude::*;
use vstd::string::StrSliceExecFns;
use crate::measure::{Milli, abs_int};

verus! {

/// Concatenation of character sequences reassociates freely.  Rendered
/// output is assembled piece by piece, so proofs constantly restate a
/// left-nested concatenation as a right-nested one.
pub broadcast proof fn lemma_concat_assoc<T>(a: Seq<T>, b: Seq<T>, c: Seq<T>)
    ensures
        #[trigger] ((a + b) + c) == a + (b + c),
{
    assert((a + b) + c =~= a + (b + c));
}

/// The empty sequence is a right identity of concatenation.  Absent
/// optional fields render as empty pieces, which this removes.
pub broadcast proof fn lemma_concat_empty<T>(a: Seq<T>)
    ensures
        #[trigger] (a + Seq::<T>::empty()) == a,
{
    assert(a + Seq::<T>::empty() =~= a);
}

/// The decimal digit `d` as a character.
pub open spec fn digit_char(d: nat) -> char
    recommends
        d < 10,
{
    ((48 + d) as u8) as char
}

/// The decimal digits of `n`, most significant first, no sign and no
/// leading zeros.
pub open spec fn dec_u(n: nat) -> Seq<char>
    decreases n,
{
    if n < 10 {
        seq![digit_char(n)]
    } else {
        dec_u(n / 10) + seq![digit_char(n % 10)]
    }
}

/// The decimal rendering of `n`, with a leading minus sign when negative.
pub open spec fn dec_i(n: int) -> Seq<char> {
    if n < 0 {
        seq!['-'] + dec_u((-n) as nat)
    } else {
        dec_u(n as nat)
    }
}

/// The fractional part of a fixed-point rendering: `f` thousandths,
/// trailing zeros trimmed but at least one digit kept.
pub open spec fn frac_chars(f: nat) -> Seq<char>
    recommends
        f < 1000,
{
    if f % 10 != 0 {
        seq![digit_char(f / 100), digit_char((f / 10) % 10), digit_char(f % 10)]
    } else if f % 100 != 0 {
        seq![digit_char(f / 100), digit_char((f / 10) % 10)]
    } else {
        seq![digit_char(f / 100)]
    }
}

/// The JSON number rendering of a value of `v` thousandths: sign, whole
/// part, decimal point, fraction with trailing zeros trimmed.  A whole
/// value keeps one zero after the point, so `20000` renders as `20.0`.
pub open spec fn milli_chars(v: int) -> Seq<char> {
    let sign: Seq<char> = if v < 0 {
        seq!['-']
    } else {
        Seq::empty()
    };
    let m = abs_int(v) as nat;
    sign + dec_u(m / 1000) + seq!['.'] + frac_chars(m % 1000)
}

/// `n` zero-padded to at least two digits.
pub open spec fn pad2(n: nat) -> Seq<char> {
    if n < 10 {
        seq!['0'] + dec_u(n)
    } else {
        dec_u(n)
    }
}

/// `n` zero-padded to at least four digits.
pub open spec fn pad4(n: nat) -> Seq<char> {
    if n < 10 {
        seq!['0', '0', '0'] + dec_u(n)
    } else if n < 100 {
        seq!['0', '0'] + dec_u(n)
    } else if n < 1000 {
        seq!['0'] + dec_u(n)
    } else {
        dec_u(n)
    }
}

/// The hexadecimal digit `d` as a lower-case character.
pub open spec fn hex_char(d: nat) -> char
    recommends
        d < 16,
{
    if d < 10 {
        digit_char(d)
    } else {
        ((87 + d) as u8) as char
    }
}

/// The JSON escape of one character: quote and backslash get a backslash
/// escape, control characters a `\u00XX` escape, every other character
/// stands for itself.
pub open spec fn escape_char(c: char) -> Seq<char> {
    if c == '"' {
        seq!['\\', '"']
    } else if c == '\\' {
        seq!['\\', '\\']
    } else if (c as u32) < 32 {
        seq!['\\', 'u', '0', '0', hex_char(((c as u32) / 16) as nat), hex_char(
            ((c as u32) % 16) as nat,
        )]
    } else {
        seq![c]
    }
}

/// The JSON escape of a whole string body.
pub open spec fn escape_chars(s: Seq<char>) -> Seq<char>
    decreases s.len(),
{
    if s.len() == 0 {
        Seq::empty()
    } else {
        escape_chars(s.drop_last()) + escape_char(s.last())
    }
}

/// The JSON string literal holding `s`: quoted and escaped.
pub open spec fn quoted(s: Seq<char>) -> Seq<char> {
    seq!['"'] + escape_chars(s) + seq!['"']
}

/// The characters of `s`, in order, read one by one.  Each `get_char`
/// rescans the slice, so this is quadratic in the worst case; the
/// labels and names rendered here never notice.
fn str_chars_vec(s: &str) -> (v: Vec<char>)
    ensures
        v@ == s@,
{
    let n = s.unicode_len();
    let mut v: Vec<char> = Vec::new();
    let mut i: usize = 0;
    while i < n
        invariant
            n == s@.len(),
            i <= n,
            v@ == s@.take(i as int),
        decreases n - i,
    {
        v.push(s.get_char(i));
        proof {
            assert(v@ =~= s@.take(i as int + 1));
        }
        i += 1;
    }
    proof {
        assert(s@.take(s@.len() as int) =~= s@);
    }
    v
}

/// A `String` holding exactly the characters of `v`.
///
/// Relies on `String::from_iter` over `char`: collecting characters
/// builds the string that holds them in order.
#[verifier::external_body]
pub(crate) fn chars_to_string(v: &Vec<char>) -> (s: String)
    ensures
        s@ == v@,
{
    v.iter().collect()
}

/// Appends every character of `s` to `out`.
pub(crate) fn push_str_chars(out: &mut Vec<char>, s: &str)
    ensures
        final(out)@ == old(out)@ + s@,
{
    let cs = str_chars_vec(s);
    let mut i: usize = 0;
    while i < cs.len()
        invariant
            i <= cs.len(),
            cs@ == s@,
            out@ == old(out)@ + s@.take(i as int),
        decreases cs.len() - i,
    {
        out.push(cs[i]);
        proof {
            assert(out@ =~= old(out)@ + s@.take(i as int + 1));
        }
        i += 1;
    }
    proof {
        assert(s@.take(s@.len() as int) =~= s@);
    }
}

/// Appends one character.
pub(crate) fn push_char(out: &mut Vec<char>, c: char)
    ensures
        final(out)@ == old(out)@ + seq![c],
{
    out.push(c);
    proof {
        assert(out@ =~= old(out)@ + seq![c]);
    }
}

/// Appends the decimal digits of `n`.
pub(crate) fn push_dec_u64(out: &mut Vec<char>, n: u64)
    ensures
        final(out)@ == old(out)@ + dec_u(n as nat),
    decreases n,
{
    if n < 10 {
        out.push((48 + n as u8) as char);
        proof {
            assert(out@ =~= old(out)@ + dec_u(n as nat));
        }
    } else {
        push_dec_u64(out, n / 10);
        let d: u8 = (n % 10) as u8;
        out.push((48 + d) as char);
        proof {
            assert(out@ =~= old(out)@ + dec_u(n as nat));
        }
    }
}

/// Appends the decimal rendering of `n`, sign included.
pub(crate) fn push_dec_i64(out: &mut Vec<char>, n: i64)
    ensures
        final(out)@ == old(out)@ + dec_i(n as int),
{
    if n < 0 {
        out.push('-');
        let m: u64 = (-(n as i128)) as u64;
        push_dec_u64(out, m);
        proof {
            assert(out@ =~= old(out)@ + dec_i(n as int));
        }
    } else {
        push_dec_u64(out, n as u64);
    }
}

/// Appends the JSON number rendering of the fixed-point value `v`.
pub(crate) fn push_milli(out: &mut Vec<char>, v: Milli)
    ensures
        final(out)@ == old(out)@ + milli_chars(v@),
{
    if v.value < 0 {
        out.push('-');
    }
    let m: u64 = if v.value < 0 {
        (-(v.value as i128)) as u64
    } else {
        v.value as u64
    };
    push_dec_u64(out, m / 1000);
    out.push('.');
    let f: u64 = m % 1000;
    if f % 10 != 0 {
        out.push((48 + (f / 100) as u8) as char);
        out.push((48 + ((f / 10) % 10) as u8) as char);
        out.push((48 + (f % 10) as u8) as char);
    } else if f % 100 != 0 {
        out.push((48 + (f / 100) as u8) as char);
        out.push((48 + ((f / 10) % 10) as u8) as char);
    } else {
        out.push((48 + (f / 100) as u8) as char);
    }
    proof {
        assert(out@ =~= old(out)@ + milli_chars(v@));
    }
}

/// Appends `n` zero-padded to at least two digits.
pub(crate) fn push_pad2(out: &mut Vec<char>, n: u64)
    ensures
        final(out)@ == old(out)@ + pad2(n as nat),
{
    if n < 10 {
        out.push('0');
    }
    push_dec_u64(out, n);
    proof {
        assert(out@ =~= old(out)@ + pad2(n as nat));
    }
}

/// Appends `n` zero-padded to at least four digits.
pub(crate) fn push_pad4(out: &mut Vec<char>, n: u64)
    ensures
        final(out)@ == old(out)@ + pad4(n as nat),
{
    if n < 10 {
        out.push('0');
        out.push('0');
        out.push('0');
    } else if n < 100 {
        out.push('0');
        out.push('0');
    } else if n < 1000 {
        out.push('0');
    }
    push_dec_u64(out, n);
    proof {
        assert(out@ =~= old(out)@ + pad4(n as nat));
    }
}

/// Appends the quoted, escaped JSON string literal holding `s`.
pub(crate) fn push_json_string(out: &mut Vec<char>, s: &str)
    ensures
        final(out)@ == old(out)@ + quoted(s@),
{
    out.push('"');
    let cs = str_chars_vec(s);
    let mut i: usize = 0;
    while i < cs.len()
        invariant
            i <= cs.len(),
            cs@ == s@,
            out@ == old(out)@ + seq!['"'] + escape_chars(s@.take(i as int)),
        decreases cs.len() - i,
    {
        let c = cs[i];
        if c == '"' {
            out.push('\\');
            out.push('"');
        } else if c == '\\' {
            out.push('\\');
            out.push('\\');
        } else if (c as u32) < 32 {
            out.push('\\');
            out.push('u');
            out.push('0');
            out.push('0');
            let hi: u8 = ((c as u32) / 16) as u8;
            let lo: u8 = ((c as u32) % 16) as u8;
            out.push((if hi < 10 { 48 + hi } else { 87 + hi }) as char);
            out.push((if lo < 10 { 48 + lo } else { 87 + lo }) as char);
        } else {
            out.push(c);
        }
        proof {
            assert(s@.take(i as int + 1).drop_last() =~= s@.take(i as int));
            assert(s@.take(i as int + 1).last() == s@[i as int]);
            assert(out@ =~= old(out)@ + seq!['"'] + escape_chars(s@.take(i as int + 1)));
        }
        i += 1;
    }
    out.push('"');
    proof {
        assert(s@.take(s@.len() as int) =~= s@);
        assert(out@ =~= old(out)@ + quoted(s@));
    }
}

/// The rendering of an optional fixed-point field: nothing when absent,
/// the label (which carries its own separator and quoted name) followed by
/// the number when present.
pub open spec fn opt_milli_field(label: Seq<char>, v: Option<Milli>) -> Seq<char> {
    match v {
        Option::Some(m) => label + milli_chars(m@),
        Option::None => Seq::empty(),
    }
}

/// The rendering of an optional fixed-point field given as its
/// mathematical value in thousandths.
pub open spec fn opt_num_field(label: Seq<char>, v: Option<int>) -> Seq<char> {
    match v {
        Option::Some(n) => label + milli_chars(n),
        Option::None => Seq::empty(),
    }
}

/// The rendering of an optional integer field: nothing when absent, the
/// label followed by the signed decimal number when present.
pub open spec fn opt_i32_field(label: Seq<char>, v: Option<i32>) -> Seq<char> {
    match v {
        Option::Some(n) => label + dec_i(n as int),
        Option::None => Seq::empty(),
    }
}

/// Appends an optional fixed-point field: nothing when absent, the label
/// and the number when present.
pub(crate) fn push_opt_milli(out: &mut Vec<char>, label: &str, v: &Option<Milli>)
    ensures
        final(out)@ == old(out)@ + opt_milli_field(label@, *v),
{
    match v {
        Option::Some(m) => {
            push_str_chars(out, label);
            push_milli(out, *m);
            proof {
                assert(out@ =~= old(out)@ + opt_milli_field(label@, Option::Some(*m)));
            }
        },
        Option::None => {
            proof {
                assert(out@ =~= old(out)@ + opt_milli_field(label@, Option::None));
            }
        },
    }
}

/// Appends an optional integer field: nothing when absent, the label and
/// the signed decimal number when present.
pub(crate) fn push_opt_i32(out: &mut Vec<char>, label: &str, v: &Option<i32>)
    ensures
        final(out)@ == old(out)@ + opt_i32_field(label@, *v),
{
    match v {
        Option::Some(n) => {
            push_str_chars(out, label);
            push_dec_i64(out, *n as i64);
            proof {
                assert(out@ =~= old(out)@ + opt_i32_field(label@, Option::Some(*n)));
            }
        },
        Option::None => {
            proof {
                assert(out@ =~= old(out)@ + opt_i32_field(label@, Option::None));
            }
        },
    }
}

} // verus!
