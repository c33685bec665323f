//! Scalar tag content: reading numbers and booleans out of a tag's text and
//! writing them back, with a proved round trip.

use vstd::prelude::*;
use vstd::arithmetic::div_mod::lemma_fundamental_div_mod;
use vstd::string::{StrSliceExecFns, StringExecFns};
use crate::error::{Error, ErrorKindView, ErrorView, SVDError, SVDErrorView};
use crate::tree::{spec_optional_child_text, Tree, TreeView};

verus! {

/// A decimal digit.
pub open spec fn is_dec_digit(c: char) -> bool {
    48 <= c as u32 && c as u32 <= 57
}

/// The numeric value of a decimal digit.
pub open spec fn dec_digit_val(c: char) -> nat {
    (c as u32 - 48) as nat
}

/// The digit character for a value below ten.
pub open spec fn dec_digit_char(v: nat) -> char {
    if v == 0 {
        '0'
    } else if v == 1 {
        '1'
    } else if v == 2 {
        '2'
    } else if v == 3 {
        '3'
    } else if v == 4 {
        '4'
    } else if v == 5 {
        '5'
    } else if v == 6 {
        '6'
    } else if v == 7 {
        '7'
    } else if v == 8 {
        '8'
    } else {
        '9'
    }
}

/// Nonempty and all decimal digits: the texts the scalar parser accepts.
pub open spec fn is_dec_string(s: Seq<char>) -> bool {
    s.len() > 0 && forall|i: int| 0 <= i < s.len() ==> is_dec_digit(#[trigger] s[i])
}

/// The number a digit string denotes.
pub open spec fn dec_val(s: Seq<char>) -> nat
    decreases s.len(),
{
    if s.len() == 0 {
        0
    } else {
        dec_val(s.drop_last()) * 10 + dec_digit_val(s.last())
    }
}

/// The canonical decimal rendering of a number: no sign, no leading zero
/// except for zero itself.
pub open spec fn dec_string_of(n: nat) -> Seq<char>
    decreases n,
{
    if n < 10 {
        seq![dec_digit_char(n)]
    } else {
        dec_string_of(n / 10).push(dec_digit_char(n % 10))
    }
}

/// The canonical rendering consists of digits.
pub proof fn lemma_dec_string_of_digits(n: nat)
    ensures
        is_dec_string(dec_string_of(n)),
    decreases n,
{
    if n >= 10 {
        lemma_dec_string_of_digits(n / 10);
        assert(dec_string_of(n) =~= dec_string_of(n / 10).push(dec_digit_char(n % 10)));
        assert(forall|i: int|
            0 <= i < dec_string_of(n / 10).len() ==> dec_string_of(n)[i] == #[trigger] dec_string_of(
                n / 10,
            )[i]);
    }
}

/// Reading the canonical rendering back gives the number.
pub proof fn lemma_dec_round_trip(n: nat)
    ensures
        dec_val(dec_string_of(n)) == n,
    decreases n,
{
    if n < 10 {
        assert(dec_string_of(n).drop_last() =~= Seq::<char>::empty());
        assert(dec_val(Seq::<char>::empty()) == 0);
        assert(dec_string_of(n).last() == dec_digit_char(n));
    } else {
        lemma_dec_round_trip(n / 10);
        assert(dec_string_of(n).drop_last() =~= dec_string_of(n / 10));
        lemma_fundamental_div_mod(n as int, 10);
    }
}

/// The model of the error the scalar parser raises.
pub open spec fn parse_error_view(text: Seq<char>) -> ErrorView {
    ErrorView {
        kind: ErrorKindView::Svd(SVDErrorView::ParseError(text)),
        context: Seq::empty(),
    }
}

/// The model of [`parse_u64`]: the value of a digit string that fits, the
/// parse error otherwise.
pub open spec fn spec_parse_u64(s: Seq<char>) -> Result<u64, ErrorView> {
    if is_dec_string(s) && dec_val(s) <= u64::MAX {
        Ok((dec_val(s) as u64))
    } else {
        Err(parse_error_view(s))
    }
}

/// The model of [`parse_u32`].
pub open spec fn spec_parse_u32(s: Seq<char>) -> Result<u32, ErrorView> {
    if is_dec_string(s) && dec_val(s) <= u32::MAX {
        Ok((dec_val(s) as u32))
    } else {
        Err(parse_error_view(s))
    }
}

/// Appending one digit multiplies the prefix value by ten and adds it.
proof fn lemma_dec_val_step(s: Seq<char>, i: int)
    requires
        0 <= i < s.len(),
    ensures
        dec_val(s.take(i + 1)) == dec_val(s.take(i)) * 10 + dec_digit_val(s[i]),
{
    assert(s.take(i + 1).drop_last() =~= s.take(i));
    assert(s.take(i + 1).last() == s[i]);
}

/// A longer digit prefix never denotes a smaller number.
proof fn lemma_dec_val_grows(s: Seq<char>, i: int)
    requires
        0 <= i <= s.len(),
    ensures
        dec_val(s) >= dec_val(s.take(i)),
    decreases s.len() - i,
{
    if i < s.len() {
        lemma_dec_val_grows(s, i + 1);
        lemma_dec_val_step(s, i);
    } else {
        assert(s.take(i) =~= s);
    }
}

/// Reads `text` as an unsigned decimal number.  Succeeds exactly on
/// nonempty all-digit texts whose value fits; anything else is the
/// malformed-scalar error carrying the offending text.
pub fn parse_u64(text: &str) -> (r: Result<u64, Error>)
    ensures
        match (r, spec_parse_u64(text@)) {
            (Ok(v), Ok(sv)) => v == sv,
            (Err(e), Err(ev)) => e@ =~= ev,
            _ => false,
        },
{
    let n = text.unicode_len();
    if n == 0 {
        return Err(Error::svd(SVDError::ParseError(text.to_owned())));
    }
    let mut acc: u64 = 0;
    let mut i: usize = 0;
    let mut overflowed = false;
    while i < n
        invariant
            0 < n == text@.len(),
            i <= n,
            forall|j: int| 0 <= j < i ==> is_dec_digit(#[trigger] text@[j]),
            !overflowed ==> acc == dec_val(text@.take(i as int)),
            overflowed ==> dec_val(text@.take(i as int)) > u64::MAX,
        decreases n - i,
    {
        let c = text.get_char(i);
        let u = c as u32;
        if !(48 <= u && u <= 57) {
            assert(!is_dec_string(text@));
            return Err(Error::svd(SVDError::ParseError(text.to_owned())));
        }
        let d = (u - 48) as u64;
        proof {
            lemma_dec_val_step(text@, i as int);
        }
        if overflowed {
        } else if acc > (u64::MAX - d) / 10 {
            proof {
                lemma_fundamental_div_mod((u64::MAX - d) as int, 10);
                assert(acc * 10 >= ((u64::MAX - d) / 10 + 1) * 10) by (nonlinear_arith)
                    requires
                        acc >= (u64::MAX - d) / 10 + 1,
                ;
            }
            overflowed = true;
        } else {
            proof {
                lemma_fundamental_div_mod((u64::MAX - d) as int, 10);
                assert(acc * 10 <= ((u64::MAX - d) / 10) * 10) by (nonlinear_arith)
                    requires
                        acc <= (u64::MAX - d) / 10,
                ;
            }
            acc = acc * 10 + d;
        }
        i += 1;
    }
    proof {
        assert(text@.take(n as int) =~= text@);
    }
    if overflowed {
        Err(Error::svd(SVDError::ParseError(text.to_owned())))
    } else {
        Ok(acc)
    }
}

/// Reads `text` as a decimal number that must fit in 32 bits.
pub fn parse_u32(text: &str) -> (r: Result<u32, Error>)
    ensures
        match (r, spec_parse_u32(text@)) {
            (Ok(v), Ok(sv)) => v == sv,
            (Err(e), Err(ev)) => e@ =~= ev,
            _ => false,
        },
{
    match parse_u64(text) {
        Err(e) => Err(e),
        Ok(v) => {
            if v <= 0xffff_ffff {
                Ok(v as u32)
            } else {
                Err(Error::svd(SVDError::ParseError(text.to_owned())))
            }
        },
    }
}

/// The string literal for one digit value.
fn dec_digit_str(d: u64) -> (r: &'static str)
    requires
        d < 10,
    ensures
        r@ =~= seq![dec_digit_char(d as nat)],
{
    proof {
        reveal_strlit("0");
        reveal_strlit("1");
        reveal_strlit("2");
        reveal_strlit("3");
        reveal_strlit("4");
        reveal_strlit("5");
        reveal_strlit("6");
        reveal_strlit("7");
        reveal_strlit("8");
        reveal_strlit("9");
    }
    if d == 0 {
        "0"
    } else if d == 1 {
        "1"
    } else if d == 2 {
        "2"
    } else if d == 3 {
        "3"
    } else if d == 4 {
        "4"
    } else if d == 5 {
        "5"
    } else if d == 6 {
        "6"
    } else if d == 7 {
        "7"
    } else if d == 8 {
        "8"
    } else {
        "9"
    }
}

/// Writes `v` in its canonical decimal rendering.
pub fn u64_to_dec(v: u64) -> (s: String)
    ensures
        s@ =~= dec_string_of(v as nat),
    decreases v,
{
    if v < 10 {
        dec_digit_str(v).to_owned()
    } else {
        let mut s = u64_to_dec(v / 10);
        s.append(dec_digit_str(v % 10));
        s
    }
}

/// Writes a 32-bit value in its canonical decimal rendering.
pub fn u32_to_dec(v: u32) -> (s: String)
    ensures
        s@ =~= dec_string_of(v as nat),
{
    u64_to_dec(v as u64)
}

/// The model of the error the boolean parser raises.
pub open spec fn bool_error_view(text: Seq<char>) -> ErrorView {
    ErrorView {
        kind: ErrorKindView::Svd(SVDErrorView::InvalidBooleanValue(text)),
        context: Seq::empty(),
    }
}

/// The boolean a text denotes: exactly `true` or `false`.
pub open spec fn spec_bool_of_text(s: Seq<char>) -> Option<bool> {
    if s == "true"@ {
        Some(true)
    } else if s == "false"@ {
        Some(false)
    } else {
        None
    }
}

/// The canonical rendering of a boolean.
pub open spec fn spec_bool_text(b: bool) -> Seq<char> {
    if b {
        "true"@
    } else {
        "false"@
    }
}

/// Reading the canonical rendering back gives the boolean.
pub proof fn lemma_bool_round_trip(b: bool)
    ensures
        spec_bool_of_text(spec_bool_text(b)) == Some(b),
{
    reveal_strlit("true");
    reveal_strlit("false");
    assert(!("true"@ =~= "false"@));
}

/// Reads `text` as a boolean.  Succeeds exactly on `true` and `false`;
/// anything else is the invalid-boolean error carrying the offending text.
pub fn parse_bool(text: &String) -> (r: Result<bool, Error>)
    ensures
        match (r, spec_bool_of_text(text@)) {
            (Ok(v), Some(sv)) => v == sv,
            (Err(e), None) => e@ =~= bool_error_view(text@),
            _ => false,
        },
{
    if crate::tree::str_eq(text, "true") {
        Ok(true)
    } else if crate::tree::str_eq(text, "false") {
        Ok(false)
    } else {
        Err(Error::svd(SVDError::InvalidBooleanValue(text.clone())))
    }
}

/// Writes a boolean in its canonical rendering.
pub fn bool_to_text(b: bool) -> (s: String)
    ensures
        s@ == spec_bool_text(b),
{
    if b {
        "true".to_owned()
    } else {
        "false".to_owned()
    }
}

/// The model of [`optional_child_u32`]: absence is no error, malformed text
/// is.
pub open spec fn spec_optional_child_u32(t: TreeView, tag: Seq<char>) -> Result<
    Option<u32>,
    ErrorView,
> {
    match spec_optional_child_text(t, tag) {
        Err(e) => Err(e),
        Ok(None) => Ok(None),
        Ok(Some(x)) => match spec_parse_u32(x) {
            Err(e) => Err(e),
            Ok(v) => Ok(Some(v)),
        },
    }
}

/// The model of [`optional_child_u64`].
pub open spec fn spec_optional_child_u64(t: TreeView, tag: Seq<char>) -> Result<
    Option<u64>,
    ErrorView,
> {
    match spec_optional_child_text(t, tag) {
        Err(e) => Err(e),
        Ok(None) => Ok(None),
        Ok(Some(x)) => match spec_parse_u64(x) {
            Err(e) => Err(e),
            Ok(v) => Ok(Some(v)),
        },
    }
}

/// Reads the optional child with the given tag as a 32-bit decimal number.
pub fn optional_child_u32(t: &Tree, tag: &str) -> (r: Result<Option<u32>, Error>)
    ensures
        match (r, spec_optional_child_u32(t@, tag@)) {
            (Ok(v), Ok(sv)) => v == sv,
            (Err(e), Err(ev)) => e@ =~= ev,
            _ => false,
        },
{
    match t.optional_child_text(tag)? {
        None => Ok(None),
        Some(x) => {
            let v = parse_u32(x.as_str())?;
            Ok(Some(v))
        },
    }
}

/// Reads the optional child with the given tag as a 64-bit decimal number.
pub fn optional_child_u64(t: &Tree, tag: &str) -> (r: Result<Option<u64>, Error>)
    ensures
        match (r, spec_optional_child_u64(t@, tag@)) {
            (Ok(v), Ok(sv)) => v == sv,
            (Err(e), Err(ev)) => e@ =~= ev,
            _ => false,
        },
{
    match t.optional_child_text(tag)? {
        None => Ok(None),
        Some(x) => {
            let v = parse_u64(x.as_str())?;
            Ok(Some(v))
        },
    }
}

} // verus!
