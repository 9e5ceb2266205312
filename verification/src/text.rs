//! Text as sequences of characters: the few operations on log lines and on
//! configuration text that the rest of the crate is stated over.

use vstd::prelude::*;
use vstd::string::*;

verus! {

/// Whether `c` has the Unicode property `White_Space`, as std's
/// `char::is_whitespace` reports it.
pub uninterp spec fn is_white_space(c: char) -> bool;

/// `char::is_whitespace` of std. The answer depends on the character alone;
/// Unicode's table of white space is not restated here, the answer is only
/// given the name `is_white_space`.
pub assume_specification[ char::is_whitespace ](c: char) -> (b: bool)
    ensures
        b == is_white_space(c),
;

/// `String::push` of std: the character is appended at the end.
#[verifier::external_body]
pub(crate) fn push_char(text: &mut String, c: char)
    ensures
        final(text)@ == old(text)@.push(c),
{
    text.push(c);
}

/// The line that begins with `head`, goes on with `body` and ends there.
pub(crate) fn line_of(head: &str, body: &str) -> (line: String)
    ensures
        line@ == head@ + body@ + "\n"@,
{
    let mut line = String::from_str(head);
    line.append(body);
    line.append("\n");
    line
}

/// The characters of `s`, in order.
pub fn chars_of(s: &str) -> (chars: Vec<char>)
    ensures
        chars@ == s@,
{
    broadcast use axiom_spec_iter;

    let mut chars: Vec<char> = Vec::new();
    let source = s.chars();
    for c in it: source
        invariant
            it.seq() == s@,
            chars@ == s@.take(it.index()),
    {
        chars.push(c);
    }
    chars
}

/// `s` without the white space at either end.
pub open spec fn trimmed(s: Seq<char>) -> Seq<char>
    decreases s.len(),
{
    if s.len() > 0 && is_white_space(s.first()) {
        trimmed(s.drop_first())
    } else if s.len() > 0 && is_white_space(s.last()) {
        trimmed(s.drop_last())
    } else {
        s
    }
}

/// `s` without the white space at its start.
pub open spec fn trimmed_start(s: Seq<char>) -> Seq<char>
    decreases s.len(),
{
    if s.len() > 0 && is_white_space(s.first()) {
        trimmed_start(s.drop_first())
    } else {
        s
    }
}

/// `from..to` frames what is left of `s` once the white space at both ends
/// is gone: white space only outside, none at either edge inside.
pub open spec fn frames_trimmed(s: Seq<char>, from: int, to: int) -> bool {
    &&& 0 <= from <= to <= s.len()
    &&& forall|i: int| 0 <= i < from ==> is_white_space(#[trigger] s[i])
    &&& forall|i: int| to <= i < s.len() ==> is_white_space(#[trigger] s[i])
    &&& from < to ==> !is_white_space(s[from]) && !is_white_space(s[to - 1])
}

/// A frame as `frames_trimmed` describes it holds exactly `trimmed(s)`.
pub proof fn lemma_frame_is_trimmed(s: Seq<char>, from: int, to: int)
    requires
        frames_trimmed(s, from, to),
    ensures
        trimmed(s) == s.subrange(from, to),
    decreases s.len(),
{
    if s.len() > 0 && is_white_space(s.first()) {
        let rest = s.drop_first();
        if from == to {
            // all of `s` is white space
            lemma_frame_is_trimmed(rest, 0, 0);
        } else {
            lemma_frame_is_trimmed(rest, from - 1, to - 1);
        }
    } else if s.len() > 0 && is_white_space(s.last()) {
        let rest = s.drop_last();
        if from == to {
            lemma_frame_is_trimmed(rest, 0, 0);
        } else {
            lemma_frame_is_trimmed(rest, from, to);
        }
    }
}

/// Trimming cuts a frame out of `s`: `trimmed(s)` is a stretch of `s` with
/// nothing but white space before and after it, and with no white space at
/// either of its own ends.
pub proof fn law_trim_cuts_a_frame(s: Seq<char>) -> (frame: (int, int))
    ensures
        frames_trimmed(s, frame.0, frame.1),
        trimmed(s) == s.subrange(frame.0, frame.1),
        trimmed(s).len() > 0 ==> !is_white_space(trimmed(s).first()) && !is_white_space(
            trimmed(s).last(),
        ),
    decreases s.len(),
{
    let frame = if s.len() > 0 && is_white_space(s.first()) {
        let rest = s.drop_first();
        let inner = law_trim_cuts_a_frame(rest);
        if inner.0 == inner.1 {
            // nothing is left of `rest`, so nothing is left of `s`
            assert forall|i: int| 0 <= i < s.len() implies is_white_space(#[trigger] s[i]) by {
                if i > 0 {
                    assert(s[i] == rest[i - 1]);
                }
            }
            (0int, 0int)
        } else {
            assert forall|i: int| 0 <= i < inner.0 + 1 implies is_white_space(#[trigger] s[i]) by {
                if i > 0 {
                    assert(s[i] == rest[i - 1]);
                }
            }
            assert forall|i: int| inner.1 + 1 <= i < s.len() implies is_white_space(
                #[trigger] s[i],
            ) by {
                assert(s[i] == rest[i - 1]);
            }
            (inner.0 + 1, inner.1 + 1)
        }
    } else if s.len() > 0 && is_white_space(s.last()) {
        let rest = s.drop_last();
        let inner = law_trim_cuts_a_frame(rest);
        assert forall|i: int| inner.1 <= i < s.len() implies is_white_space(#[trigger] s[i]) by {
            if i < rest.len() {
                assert(s[i] == rest[i]);
            }
        }
        inner
    } else {
        (0int, s.len() as int)
    };
    lemma_frame_is_trimmed(s, frame.0, frame.1);
    frame
}

/// What is left of `s` after its first `from` characters, all white space,
/// is `trimmed_start(s)` if the next character, where there is one, is not.
pub proof fn lemma_skip_is_trimmed_start(s: Seq<char>, from: int)
    requires
        0 <= from <= s.len(),
        forall|i: int| 0 <= i < from ==> is_white_space(#[trigger] s[i]),
        from < s.len() ==> !is_white_space(s[from]),
    ensures
        trimmed_start(s) == s.skip(from),
    decreases s.len(),
{
    if s.len() > 0 && is_white_space(s.first()) {
        lemma_skip_is_trimmed_start(s.drop_first(), from - 1);
    }
}

/// The frame of `trimmed(chars[lo..hi])`, as positions in `chars`.
pub(crate) fn trim_bounds(chars: &Vec<char>, lo: usize, hi: usize) -> (frame: (usize, usize))
    requires
        lo <= hi <= chars.len(),
    ensures
        lo <= frame.0 <= frame.1 <= hi,
        chars@.subrange(frame.0 as int, frame.1 as int) == trimmed(
            chars@.subrange(lo as int, hi as int),
        ),
{
    let ghost window = chars@.subrange(lo as int, hi as int);
    let mut from: usize = lo;
    while from < hi && chars[from].is_whitespace()
        invariant
            lo <= from <= hi <= chars.len(),
            forall|i: int| lo <= i < from ==> is_white_space(#[trigger] chars@[i]),
        decreases hi - from,
    {
        from += 1;
    }
    let mut to: usize = hi;
    while from < to && chars[to - 1].is_whitespace()
        invariant
            lo <= from <= to <= hi <= chars.len(),
            forall|i: int| to <= i < hi ==> is_white_space(#[trigger] chars@[i]),
        decreases to - from,
    {
        to -= 1;
    }
    proof {
        // white space before `from` and from `to` on, none at either edge
        assert(frames_trimmed(window, from - lo, to - lo));
        lemma_frame_is_trimmed(window, from - lo, to - lo);
    }
    (from, to)
}

/// `needle` stands in `hay` at position `at`.
pub open spec fn occurs_at(hay: Seq<char>, needle: Seq<char>, at: int) -> bool {
    &&& 0 <= at
    &&& at + needle.len() <= hay.len()
    &&& hay.subrange(at, at + needle.len()) == needle
}

/// `at` is the first position at which `needle` stands in `hay`.
pub open spec fn first_occurs_at(hay: Seq<char>, needle: Seq<char>, at: int) -> bool {
    &&& occurs_at(hay, needle, at)
    &&& forall|earlier: int| 0 <= earlier < at ==> !occurs_at(hay, needle, earlier)
}

/// The first position at which `needle` stands in `hay`, if it stands
/// anywhere.
pub open spec fn first_occurrence(hay: Seq<char>, needle: Seq<char>) -> Option<int> {
    if exists|at: int| occurs_at(hay, needle, at) {
        Some(choose|at: int| first_occurs_at(hay, needle, at))
    } else {
        None
    }
}

/// A first position is the first occurrence.
pub proof fn lemma_first_occurrence_found(hay: Seq<char>, needle: Seq<char>, at: int)
    requires
        first_occurs_at(hay, needle, at),
    ensures
        first_occurrence(hay, needle) == Some(at),
{
    // neither of two first positions stands before the other
    let chosen = choose|first: int| first_occurs_at(hay, needle, first);
    assert(chosen == at);
}

/// Where `needle` stands in `hay` at `at`, it stands first at `at` or before.
proof fn lemma_some_occurrence_is_first(hay: Seq<char>, needle: Seq<char>, at: int)
    requires
        occurs_at(hay, needle, at),
    ensures
        exists|first: int| first_occurs_at(hay, needle, first),
    decreases at,
{
    if exists|earlier: int| 0 <= earlier < at && occurs_at(hay, needle, earlier) {
        let earlier = choose|earlier: int| 0 <= earlier < at && occurs_at(hay, needle, earlier);
        lemma_some_occurrence_is_first(hay, needle, earlier);
    } else {
        assert(first_occurs_at(hay, needle, at));
    }
}

/// The first occurrence is an occurrence with none before it, and there is
/// one whenever `needle` stands in `hay` at all.
pub proof fn lemma_first_occurrence(hay: Seq<char>, needle: Seq<char>)
    ensures
        match first_occurrence(hay, needle) {
            Some(at) => first_occurs_at(hay, needle, at),
            None => forall|at: int| !occurs_at(hay, needle, at),
        },
{
    if exists|at: int| occurs_at(hay, needle, at) {
        let at = choose|at: int| occurs_at(hay, needle, at);
        lemma_some_occurrence_is_first(hay, needle, at);
    }
}

/// Whether `needle` stands in `hay` at position `at`.
fn stands_at(hay: &Vec<char>, needle: &Vec<char>, at: usize) -> (found: bool)
    requires
        at + needle.len() <= hay.len(),
    ensures
        found == occurs_at(hay@, needle@, at as int),
{
    let mut k: usize = 0;
    while k < needle.len()
        invariant
            k <= needle.len(),
            at + needle.len() <= hay.len(),
            forall|i: int| 0 <= i < k ==> hay@[at + i] == needle@[i],
        decreases needle.len() - k,
    {
        if hay[at + k] != needle[k] {
            proof {
                let window = hay@.subrange(at as int, at + needle.len());
                assert(window[k as int] != needle@[k as int]);
            }
            return false;
        }
        k += 1;
    }
    proof {
        assert(hay@.subrange(at as int, at + needle.len()) =~= needle@);
    }
    true
}

/// The first position at which `needle` stands in `hay`.
pub fn find(hay: &Vec<char>, needle: &Vec<char>) -> (found: Option<usize>)
    ensures
        match found {
            Some(at) => first_occurrence(hay@, needle@) == Some(at as int),
            None => first_occurrence(hay@, needle@) is None,
        },
{
    if needle.len() > hay.len() {
        return None;
    }
    let last: usize = hay.len() - needle.len();
    let mut at: usize = 0;
    loop
        invariant
            last == hay.len() - needle.len(),
            at <= last,
            forall|earlier: int| 0 <= earlier < at ==> !occurs_at(hay@, needle@, earlier),
        decreases last - at,
    {
        if stands_at(hay, needle, at) {
            proof {
                lemma_first_occurrence_found(hay@, needle@, at as int);
            }
            return Some(at);
        }
        if at == last {
            return None;
        }
        at += 1;
    }
}

} // verus!
