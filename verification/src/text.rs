//! Placeholder substitution in user-facing words.

use vstd::prelude::*;

verus! {

/// `text` with every occurrence of `pattern` replaced, taken from the left
/// without overlap. An empty pattern occurs nowhere.
pub open spec fn replace_all(text: Seq<char>, pattern: Seq<char>, by: Seq<char>) -> Seq<char>
    decreases text.len(),
{
    if text.len() == 0 || pattern.len() == 0 {
        text
    } else if pattern.is_prefix_of(text) {
        by + replace_all(text.skip(pattern.len() as int), pattern, by)
    } else {
        seq![text[0]] + replace_all(text.skip(1), pattern, by)
    }
}

/// Whether `pattern` stands in `text` at character `at`.
fn occurs_at(text: &str, pattern: &str, at: usize) -> (r: bool)
    requires
        at <= text@.len() <= usize::MAX,
    ensures
        r == pattern@.is_prefix_of(text@.skip(at as int)),
{
    let len: usize = text.unicode_len();
    let width: usize = pattern.unicode_len();
    if width > len - at {
        return false;
    }
    let mut i: usize = 0;
    while i < width
        invariant
            i <= width,
            width == pattern@.len(),
            len == text@.len(),
            at + width <= len,
            forall|k: int| 0 <= k < i ==> pattern@[k] == #[trigger] text@.skip(at as int)[k],
        decreases width - i,
    {
        if text.get_char(at + i) != pattern.get_char(i) {
            assert(pattern@[i as int] != text@.skip(at as int)[i as int]);
            assert(!pattern@.is_prefix_of(text@.skip(at as int)));
            return false;
        }
        i += 1;
    }
    assert(pattern@ =~= text@.skip(at as int).take(width as int));
    true
}

/// Replaces every occurrence of `pattern`.
pub fn replaced(text: &str, pattern: &str, by: &str) -> (r: String)
    ensures
        r@ == replace_all(text@, pattern@, by@),
{
    let len: usize = text.unicode_len();
    let width: usize = pattern.unicode_len();
    if width == 0 {
        return text.to_owned();
    }
    let mut out: String = String::new();
    let mut i: usize = 0;
    proof {
        assert(text@.skip(0) =~= text@);
        assert(out@ + replace_all(text@, pattern@, by@) =~= replace_all(text@, pattern@, by@));
    }
    while i < len
        invariant
            i <= len,
            len == text@.len(),
            width == pattern@.len(),
            width > 0,
            out@ + replace_all(text@.skip(i as int), pattern@, by@) == replace_all(
                text@,
                pattern@,
                by@,
            ),
        decreases len - i,
    {
        let ghost before = out@;
        let ghost rest = text@.skip(i as int);
        if occurs_at(text, pattern, i) {
            out.append(by);
            proof {
                let after = rest.skip(width as int);
                assert(after =~= text@.skip(i + width));
                assert(before + (by@ + replace_all(after, pattern@, by@)) =~= (before + by@)
                    + replace_all(after, pattern@, by@));
            }
            i = i + width;
        } else {
            out.append(text.substring_char(i, i + 1));
            proof {
                let after = rest.skip(1);
                assert(after =~= text@.skip(i + 1));
                assert(text@.subrange(i as int, i + 1) =~= seq![rest[0]]);
                assert(before + (seq![rest[0]] + replace_all(after, pattern@, by@)) =~= (before
                    + seq![rest[0]]) + replace_all(after, pattern@, by@));
            }
            i = i + 1;
        }
    }
    assert(out@ + replace_all(text@.skip(len as int), pattern@, by@) =~= out@);
    out
}

// ---- laws -----------------------------------------------------------------------------

/// Whether a pattern stands at a place of a text.
pub open spec fn stands_at(text: Seq<char>, pattern: Seq<char>, i: int) -> bool {
    0 <= i && i + pattern.len() <= text.len() && text.subrange(i, i + pattern.len()) == pattern
}

proof fn lemma_stands_at_start(text: Seq<char>, pattern: Seq<char>)
    ensures
        pattern.is_prefix_of(text) <==> stands_at(text, pattern, 0),
{
    if pattern.len() <= text.len() {
        assert(text.subrange(0, pattern.len() as int) =~= text.take(pattern.len() as int));
    }
}

proof fn lemma_stands_later(text: Seq<char>, pattern: Seq<char>, i: int)
    requires
        text.len() > 0,
        0 <= i,
    ensures
        stands_at(text.skip(1), pattern, i) <==> stands_at(text, pattern, i + 1),
{
    if i + 1 + pattern.len() <= text.len() {
        assert(text.skip(1).subrange(i, i + pattern.len()) =~= text.subrange(
            i + 1,
            i + 1 + pattern.len(),
        ));
    }
}

/// A text in which a pattern does not stand stays as it is.
pub proof fn text_without_the_pattern_stays(text: Seq<char>, pattern: Seq<char>, by: Seq<char>)
    requires
        forall|i: int| !#[trigger] stands_at(text, pattern, i),
    ensures
        replace_all(text, pattern, by) == text,
    decreases text.len(),
{
    if text.len() > 0 && pattern.len() > 0 {
        lemma_stands_at_start(text, pattern);
        assert(!stands_at(text, pattern, 0));
        assert forall|i: int| !#[trigger] stands_at(text.skip(1), pattern, i) by {
            if 0 <= i {
                lemma_stands_later(text, pattern, i);
                assert(!stands_at(text, pattern, i + 1));
            }
        }
        text_without_the_pattern_stays(text.skip(1), pattern, by);
        assert(seq![text[0]] + text.skip(1) =~= text);
    }
}

/// Where a pattern stands first, the replacement takes its place: what is before it stays,
/// and what is behind it is treated in the same way.
pub proof fn first_place_of_the_pattern_is_replaced(
    text: Seq<char>,
    pattern: Seq<char>,
    by: Seq<char>,
    at: int,
)
    requires
        pattern.len() > 0,
        stands_at(text, pattern, at),
        forall|i: int| 0 <= i < at ==> !#[trigger] stands_at(text, pattern, i),
    ensures
        replace_all(text, pattern, by) == text.take(at) + by + replace_all(
            text.skip(at + pattern.len()),
            pattern,
            by,
        ),
    decreases text.len(),
{
    lemma_stands_at_start(text, pattern);
    if at == 0 {
        assert(text.take(0) + by =~= by);
    } else {
        let rest = text.skip(1);
        assert(!stands_at(text, pattern, 0));
        lemma_stands_later(text, pattern, at - 1);
        assert forall|i: int| 0 <= i < at - 1 implies !#[trigger] stands_at(rest, pattern, i) by {
            lemma_stands_later(text, pattern, i);
            assert(!stands_at(text, pattern, i + 1));
        }
        first_place_of_the_pattern_is_replaced(rest, pattern, by, at - 1);
        assert(rest.skip(at - 1 + pattern.len()) =~= text.skip(at + pattern.len()));
        assert(seq![text[0]] + rest.take(at - 1) =~= text.take(at));
        assert(replace_all(text, pattern, by) =~= text.take(at) + by + replace_all(
            text.skip(at + pattern.len()),
            pattern,
            by,
        ));
    }
}

} // verus!
