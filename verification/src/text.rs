//! Scanning text by position: the first position in a range at which
//! something holds, white space, and comparison of a span with a word.

use vstd::prelude::*;
use vstd::string::StrSliceExecFns;

verus! {

/// The least position in `from..to` at which `holds`, or `to` if there is none.
pub open spec fn first_position(from: int, to: int, holds: spec_fn(int) -> bool) -> int
    decreases to - from,
{
    if from >= to {
        to
    } else if holds(from) {
        from
    } else {
        first_position(from + 1, to, holds)
    }
}

/// A position that nothing before it in the range satisfies, and that
/// satisfies `holds` or ends the range, is the first position.
pub proof fn lemma_first_position(from: int, to: int, holds: spec_fn(int) -> bool, at: int)
    requires
        from <= at <= to,
        forall|j: int| from <= j < at ==> !(#[trigger] holds(j)),
        at == to || holds(at),
    ensures
        first_position(from, to, holds) == at,
    decreases at - from,
{
    if from < at {
        lemma_first_position(from + 1, to, holds, at);
    }
}

/// Whether `c` is white space: a character with the Unicode property
/// `White_Space`.
pub open spec fn is_whitespace(c: char) -> bool {
    let code = c as u32;
    ||| 0x09 <= code <= 0x0D
    ||| code == 0x20
    ||| code == 0x85
    ||| code == 0xA0
    ||| code == 0x1680
    ||| 0x2000 <= code <= 0x200A
    ||| code == 0x2028
    ||| code == 0x2029
    ||| code == 0x202F
    ||| code == 0x205F
    ||| code == 0x3000
}

/// Where `text` has white space.
pub open spec fn space_at(text: Seq<char>) -> spec_fn(int) -> bool {
    |i: int| is_whitespace(text[i])
}

/// Where `text` has anything but white space.
pub open spec fn word_at(text: Seq<char>) -> spec_fn(int) -> bool {
    |i: int| !is_whitespace(text[i])
}

/// Where `text` has the character `c`.
pub open spec fn char_at(text: Seq<char>, c: char) -> spec_fn(int) -> bool {
    |i: int| text[i] == c
}

/// Whether `c` is white space.
pub fn is_space(c: char) -> (space: bool)
    ensures
        space == is_whitespace(c),
{
    let code = c as u32;
    (0x09 <= code && code <= 0x0D) || code == 0x20 || code == 0x85 || code == 0xA0 || code
        == 0x1680 || (0x2000 <= code && code <= 0x200A) || code == 0x2028 || code == 0x2029 || code
        == 0x202F || code == 0x205F || code == 0x3000
}

/// The first position in `from..limit` at which `text` has white space, or,
/// with `space` false, anything else; `limit` if there is none.
pub fn find_space(text: &[char], from: usize, limit: usize, space: bool) -> (at: usize)
    requires
        from <= limit <= text@.len(),
    ensures
        from <= at <= limit,
        at == first_position(
            from as int,
            limit as int,
            if space {
                space_at(text@)
            } else {
                word_at(text@)
            },
        ),
{
    let ghost holds = if space {
        space_at(text@)
    } else {
        word_at(text@)
    };
    let mut at = from;
    while at < limit && is_space(text[at]) != space
        invariant
            from <= at <= limit <= text@.len(),
            holds == if space {
                space_at(text@)
            } else {
                word_at(text@)
            },
            forall|j: int| from <= j < at ==> !(#[trigger] holds(j)),
        decreases limit - at,
    {
        at = at + 1;
    }
    proof {
        lemma_first_position(from as int, limit as int, holds, at as int);
    }
    at
}

/// The first position in `from..limit` at which `text` has `c`; `limit` if
/// there is none.
pub fn find_char(text: &[char], from: usize, limit: usize, c: char) -> (at: usize)
    requires
        from <= limit <= text@.len(),
    ensures
        from <= at <= limit,
        at == first_position(from as int, limit as int, char_at(text@, c)),
{
    let mut at = from;
    while at < limit && text[at] != c
        invariant
            from <= at <= limit <= text@.len(),
            forall|j: int| from <= j < at ==> !(#[trigger] char_at(text@, c)(j)),
        decreases limit - at,
    {
        at = at + 1;
    }
    proof {
        lemma_first_position(from as int, limit as int, char_at(text@, c), at as int);
    }
    at
}

/// Whether the span `start..end` of `text` reads `word`.
pub fn span_is(text: &[char], start: usize, end: usize, word: &str) -> (same: bool)
    requires
        start <= end <= text@.len(),
    ensures
        same == (text@.subrange(start as int, end as int) == word@),
{
    let n = word.unicode_len();
    if end - start != n {
        return false;
    }
    let ghost span = text@.subrange(start as int, end as int);
    let mut i: usize = 0;
    while i < n
        invariant
            0 <= i <= n,
            n == word@.len(),
            start + n == end,
            end <= text@.len(),
            span == text@.subrange(start as int, end as int),
            forall|j: int| 0 <= j < i ==> span[j] == word@[j],
        decreases n - i,
    {
        if text[start + i] != word.get_char(i) {
            assert(span[i as int] != word@[i as int]);
            return false;
        }
        i = i + 1;
    }
    assert(span =~= word@);
    true
}

} // verus!
