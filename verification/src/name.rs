//! Pattern-based acceptance of identifier-like names against two grammars:
//! plain identifiers, and "dimable" identifiers that may carry the
//! array-expansion placeholder `%s`, either alone, as a prefix, embedded
//! after an identifier head, or as a bracketed `[%s]` suffix.
//!
//! The validators never normalize or mutate their input; they return success
//! or a structured naming error carrying the offending string and the tag it
//! was found in.

use vstd::prelude::*;
use vstd::string::StrSliceExecFns;
use crate::error::{Error, ErrorKindView, ErrorView, NameError, NameErrorView};

verus! {

/// Characters the identifier grammars accept anywhere: underscore, ASCII
/// letters, ASCII digits.
pub open spec fn is_ident_char(c: char) -> bool {
    let u = c as u32;
    u == 95 || (65 <= u && u <= 90) || (97 <= u && u <= 122) || (48 <= u && u <= 57)
}

/// Characters an identifier may begin with: underscore, ASCII letters.
pub open spec fn is_ident_start(c: char) -> bool {
    let u = c as u32;
    u == 95 || (65 <= u && u <= 90) || (97 <= u && u <= 122)
}

/// Every character from position `j` on is from the identifier alphabet.
pub open spec fn ident_chars_from(s: Seq<char>, j: int) -> bool {
    forall|i: int| j <= i < s.len() ==> is_ident_char(#[trigger] s[i])
}

/// The plain grammar: every character from the identifier alphabet.  The
/// empty string is accepted; callers decide whether that is itself an error.
pub open spec fn is_plain_name(s: Seq<char>) -> bool {
    ident_chars_from(s, 0)
}

/// A nonempty identifier that begins with a letter or underscore.
pub open spec fn is_base_ident(s: Seq<char>) -> bool {
    s.len() > 0 && is_ident_start(s[0]) && ident_chars_from(s, 1)
}

/// Positions `0 .. k` form an identifier head: a start character followed by
/// identifier characters.
pub open spec fn ident_head(s: Seq<char>, k: int) -> bool {
    &&& s.len() > 0
    &&& is_ident_start(s[0])
    &&& forall|i: int| 1 <= i < k ==> is_ident_char(#[trigger] s[i])
}

/// The placeholder token `%s` sits at position `k`.
pub open spec fn placeholder_at(s: Seq<char>, k: int) -> bool {
    &&& 0 <= k
    &&& k + 2 <= s.len()
    &&& s[k] == '%'
    &&& s[k + 1] == 's'
}

/// The bracketed placeholder `[%s]` sits at position `k`.
pub open spec fn bracket_at(s: Seq<char>, k: int) -> bool {
    &&& 0 <= k
    &&& k + 4 <= s.len()
    &&& s[k] == '['
    &&& s[k + 1] == '%'
    &&& s[k + 2] == 's'
    &&& s[k + 3] == ']'
}

/// The dimable grammar: the placeholder alone, the placeholder followed by
/// an identifier, an identifier, an identifier with a bracketed placeholder
/// suffix, or an identifier with the placeholder embedded after its head.
pub open spec fn is_dimable_name(s: Seq<char>) -> bool {
    ||| (s.len() == 2 && placeholder_at(s, 0))
    ||| (s.len() > 2 && placeholder_at(s, 0) && is_ident_start(s[2]) && ident_chars_from(s, 3))
    ||| is_base_ident(s)
    ||| (exists|k: int|
        1 <= k && k + 4 == s.len() && ident_head(s, k) && #[trigger] bracket_at(s, k))
    ||| (exists|k: int|
        1 <= k && ident_head(s, k) && #[trigger] placeholder_at(s, k) && ident_chars_from(
            s,
            k + 2,
        ))
}

/// Exec mirror of [`is_ident_char`].
fn ident_char(c: char) -> (b: bool)
    ensures
        b == is_ident_char(c),
{
    let u = c as u32;
    u == 95 || (65 <= u && u <= 90) || (97 <= u && u <= 122) || (48 <= u && u <= 57)
}

/// Exec mirror of [`is_ident_start`].
fn ident_start(c: char) -> (b: bool)
    ensures
        b == is_ident_start(c),
{
    let u = c as u32;
    u == 95 || (65 <= u && u <= 90) || (97 <= u && u <= 122)
}

/// Walks forward from `from` and returns the first position holding a
/// character outside the identifier alphabet, or the length if none does.
fn scan_ident(s: &str, from: usize) -> (i: usize)
    requires
        from <= s@.len(),
    ensures
        from <= i <= s@.len(),
        forall|j: int| from <= j < i ==> is_ident_char(#[trigger] s@[j]),
        i < s@.len() ==> !is_ident_char(s@[i as int]),
{
    let n = s.unicode_len();
    let mut i: usize = from;
    while i < n
        invariant
            from <= i <= n,
            n == s@.len(),
            forall|j: int| from <= j < i ==> is_ident_char(#[trigger] s@[j]),
        decreases n - i,
    {
        let c = s.get_char(i);
        if !ident_char(c) {
            return i;
        }
        i += 1;
    }
    i
}

/// An identifier head ends at the first character outside the alphabet, so
/// two such split points coincide.
proof fn lemma_head_end_unique(s: Seq<char>, i: int, k: int)
    requires
        1 <= i < s.len(),
        !is_ident_char(s[i]),
        forall|j: int| 1 <= j < i ==> is_ident_char(#[trigger] s[j]),
        1 <= k < s.len(),
        !is_ident_char(s[k]),
        forall|j: int| 1 <= j < k ==> is_ident_char(#[trigger] s[j]),
    ensures
        k == i,
{
    if k < i {
        assert(is_ident_char(s[k]));
    } else if k > i {
        assert(is_ident_char(s[i]));
    }
}

/// Decides the plain grammar.
pub fn matches_plain_name(s: &str) -> (b: bool)
    ensures
        b == is_plain_name(s@),
{
    let n = s.unicode_len();
    let i = scan_ident(s, 0);
    i == n
}

/// Decides the dimable grammar.
pub fn matches_dimable_name(s: &str) -> (b: bool)
    ensures
        b == is_dimable_name(s@),
{
    let ghost sq = s@;
    let n = s.unicode_len();
    if n == 0 {
        return false;
    }
    let c0 = s.get_char(0);
    if c0 == '%' {
        // `%` cannot begin an identifier head, so only the placeholder
        // forms remain.
        assert(!is_ident_start(sq[0]));
        if n < 2 {
            return false;
        }
        let c1 = s.get_char(1);
        if c1 != 's' {
            return false;
        }
        if n == 2 {
            assert(placeholder_at(sq, 0));
            return true;
        }
        let c2 = s.get_char(2);
        if !ident_start(c2) {
            return false;
        }
        let i = scan_ident(s, 3);
        if i == n {
            assert(placeholder_at(sq, 0));
            return true;
        }
        assert(!is_ident_char(sq[i as int]));
        return false;
    }
    if !ident_start(c0) {
        // Neither a placeholder nor an identifier head can begin here.
        assert(sq[0] != '%');
        return false;
    }
    let i = scan_ident(s, 1);
    if i == n {
        assert(is_base_ident(sq));
        return true;
    }
    // `i` is the first position outside the identifier alphabet, so any
    // split into head and placeholder tail happens exactly there.
    assert(!is_ident_char(sq[i as int]));
    assert(sq[0] != '%');
    let ci = s.get_char(i);
    if ci == '[' {
        if n - i == 4 && s.get_char(i + 1) == '%' && s.get_char(i + 2) == 's' && s.get_char(i + 3)
            == ']' {
            assert(bracket_at(sq, i as int));
            assert(ident_head(sq, i as int));
            return true;
        }
        assert(!is_dimable_name(sq)) by {
            if exists|k: int|
                1 <= k && k + 4 == sq.len() && ident_head(sq, k) && #[trigger] bracket_at(sq, k) {
                let k = choose|k: int|
                    1 <= k && k + 4 == sq.len() && ident_head(sq, k) && #[trigger] bracket_at(
                        sq,
                        k,
                    );
                assert(!is_ident_char(sq[k]));
                lemma_head_end_unique(sq, i as int, k);
            }
            if exists|k: int|
                1 <= k && ident_head(sq, k) && #[trigger] placeholder_at(sq, k)
                    && ident_chars_from(sq, k + 2) {
                let k = choose|k: int|
                    1 <= k && ident_head(sq, k) && #[trigger] placeholder_at(sq, k)
                        && ident_chars_from(sq, k + 2);
                assert(!is_ident_char(sq[k]));
                lemma_head_end_unique(sq, i as int, k);
            }
        }
        return false;
    }
    if ci == '%' {
        if i + 1 < n && s.get_char(i + 1) == 's' {
            let j = scan_ident(s, i + 2);
            if j == n {
                assert(placeholder_at(sq, i as int));
                assert(ident_head(sq, i as int));
                return true;
            }
            assert(!is_ident_char(sq[j as int]));
            assert(!is_dimable_name(sq)) by {
                if exists|k: int|
                    1 <= k && k + 4 == sq.len() && ident_head(sq, k) && #[trigger] bracket_at(
                        sq,
                        k,
                    ) {
                    let k = choose|k: int|
                        1 <= k && k + 4 == sq.len() && ident_head(sq, k) && #[trigger] bracket_at(
                            sq,
                            k,
                        );
                    assert(!is_ident_char(sq[k]));
                    lemma_head_end_unique(sq, i as int, k);
                }
                if exists|k: int|
                    1 <= k && ident_head(sq, k) && #[trigger] placeholder_at(sq, k)
                        && ident_chars_from(sq, k + 2) {
                    let k = choose|k: int|
                        1 <= k && ident_head(sq, k) && #[trigger] placeholder_at(sq, k)
                            && ident_chars_from(sq, k + 2);
                    assert(!is_ident_char(sq[k]));
                    lemma_head_end_unique(sq, i as int, k);
                    assert(is_ident_char(sq[j as int]));
                }
            }
            return false;
        }
        assert(!is_dimable_name(sq)) by {
            if exists|k: int|
                1 <= k && k + 4 == sq.len() && ident_head(sq, k) && #[trigger] bracket_at(sq, k) {
                let k = choose|k: int|
                    1 <= k && k + 4 == sq.len() && ident_head(sq, k) && #[trigger] bracket_at(
                        sq,
                        k,
                    );
                assert(!is_ident_char(sq[k]));
                lemma_head_end_unique(sq, i as int, k);
            }
            if exists|k: int|
                1 <= k && ident_head(sq, k) && #[trigger] placeholder_at(sq, k)
                    && ident_chars_from(sq, k + 2) {
                let k = choose|k: int|
                    1 <= k && ident_head(sq, k) && #[trigger] placeholder_at(sq, k)
                        && ident_chars_from(sq, k + 2);
                assert(!is_ident_char(sq[k]));
                lemma_head_end_unique(sq, i as int, k);
            }
        }
        return false;
    }
    assert(!is_dimable_name(sq)) by {
        if exists|k: int|
            1 <= k && k + 4 == sq.len() && ident_head(sq, k) && #[trigger] bracket_at(sq, k) {
            let k = choose|k: int|
                1 <= k && k + 4 == sq.len() && ident_head(sq, k) && #[trigger] bracket_at(sq, k);
            assert(!is_ident_char(sq[k]));
            lemma_head_end_unique(sq, i as int, k);
        }
        if exists|k: int|
            1 <= k && ident_head(sq, k) && #[trigger] placeholder_at(sq, k) && ident_chars_from(
                sq,
                k + 2,
            ) {
            let k = choose|k: int|
                1 <= k && ident_head(sq, k) && #[trigger] placeholder_at(sq, k)
                    && ident_chars_from(sq, k + 2);
            assert(!is_ident_char(sq[k]));
            lemma_head_end_unique(sq, i as int, k);
        }
    }
    false
}

/// The model of the error both validators raise.
pub open spec fn name_error_view(name: Seq<char>, tag: Seq<char>) -> ErrorView {
    ErrorView {
        kind: ErrorKindView::Name(NameErrorView::Invalid(name, tag)),
        context: Seq::empty(),
    }
}

/// Accepts `name` exactly when it matches the plain identifier grammar;
/// otherwise reports the offending string and the tag it was found in.
pub fn check_name(name: &str, tag: &str) -> (r: Result<(), Error>)
    ensures
        r is Ok <==> is_plain_name(name@),
        r matches Err(e) ==> e@ =~= name_error_view(name@, tag@),
{
    if matches_plain_name(name) {
        Ok(())
    } else {
        Err(Error::name(NameError::Invalid(name.to_owned(), tag.to_owned())))
    }
}

/// Accepts `name` exactly when it matches the dimable identifier grammar;
/// otherwise reports the offending string and the tag it was found in.
pub fn check_dimable_name(name: &str, tag: &str) -> (r: Result<(), Error>)
    ensures
        r is Ok <==> is_dimable_name(name@),
        r matches Err(e) ==> e@ =~= name_error_view(name@, tag@),
{
    if matches_dimable_name(name) {
        Ok(())
    } else {
        Err(Error::name(NameError::Invalid(name.to_owned(), tag.to_owned())))
    }
}

} // verus!
