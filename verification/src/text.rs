//! Small text helpers shared by the buffer and the theme: appending a
//! codepoint, repeating a fragment, and splitting text into lines.

use vstd::prelude::*;

verus! {

/// Appends one codepoint to the end of a string.
///
/// Relies on `String::push`: the character is appended at the end.
#[verifier::external_body]
pub(crate) fn push_char(s: &mut String, chr: char)
    ensures
        final(s)@ == old(s)@.push(chr),
{
    s.push(chr);
}

/// `text` concatenated with itself `n` times.
pub open spec fn repeated(text: Seq<char>, n: nat) -> Seq<char>
    decreases n,
{
    if n == 0 {
        Seq::<char>::empty()
    } else {
        repeated(text, (n - 1) as nat) + text
    }
}

/// A repetition is as long as the repeated fragment times the count.
pub proof fn lemma_repeated_len(text: Seq<char>, n: nat)
    ensures
        repeated(text, n).len() == n * text.len(),
    decreases n,
{
    if n > 0 {
        lemma_repeated_len(text, (n - 1) as nat);
        vstd::arithmetic::mul::lemma_mul_is_distributive_sub_other_way(
            text.len() as int,
            n as int,
            1,
        );
    } else {
        vstd::arithmetic::mul::lemma_mul_basics(text.len() as int);
    }
}

/// `text` repeated `n` times, as a `String`.
pub fn repeat_str(text: &str, n: usize) -> (r: String)
    ensures
        r@ == repeated(text@, n as nat),
{
    let mut r = String::new();
    let mut i: usize = 0;
    while i < n
        invariant
            i <= n,
            r@ == repeated(text@, i as nat),
        decreases n - i,
    {
        r.append(text);
        i = i + 1;
    }
    r
}

/// The segments of `s` between `'\n'` separators: one more segment than
/// there are separators, so a trailing separator yields a trailing empty
/// segment.
pub open spec fn split_newlines(s: Seq<char>) -> Seq<Seq<char>>
    decreases s.len(),
{
    if s.len() == 0 {
        seq![Seq::<char>::empty()]
    } else if s.last() == '\n' {
        split_newlines(s.drop_last()).push(Seq::<char>::empty())
    } else {
        let rest = split_newlines(s.drop_last());
        rest.update(rest.len() - 1, rest.last().push(s.last()))
    }
}

/// Splitting always yields at least one segment.
pub proof fn lemma_split_newlines_len(s: Seq<char>)
    ensures
        split_newlines(s).len() >= 1,
    decreases s.len(),
{
    if s.len() > 0 {
        lemma_split_newlines_len(s.drop_last());
    }
}

/// The segments of `text` between `'\n'` separators.
pub fn split_lines(text: &str) -> (r: Vec<String>)
    ensures
        r.deep_view() == split_newlines(text@),
{
    let n = text.unicode_len();
    let mut segs: Vec<String> = Vec::new();
    let mut cur = String::new();
    let mut i: usize = 0;
    while i < n
        invariant
            i <= n,
            n == text@.len(),
            segs.deep_view().push(cur@) == split_newlines(text@.subrange(0, i as int)),
        decreases n - i,
    {
        let ghost prefix = text@.subrange(0, i as int);
        let ghost prefix2 = text@.subrange(0, i + 1 as int);
        proof {
            lemma_split_newlines_len(prefix);
            assert(prefix2.drop_last() =~= prefix);
            assert(prefix2.last() == text@[i as int]);
        }
        let c = text.get_char(i);
        if c == '\n' {
            segs.push(cur);
            cur = String::new();
            proof {
                assert(segs.deep_view().push(cur@) =~~= split_newlines(prefix2));
            }
        } else {
            push_char(&mut cur, c);
            proof {
                assert(segs.deep_view().push(cur@) =~~= split_newlines(prefix2));
            }
        }
        i = i + 1;
    }
    proof {
        assert(text@.subrange(0, n as int) =~= text@);
    }
    segs.push(cur);
    proof {
        assert(segs.deep_view() =~~= split_newlines(text@));
    }
    segs
}

/// The lines of `s`: the `'\n'`-separated segments, except that a single
/// trailing separator does not open a final empty line, and empty text
/// has no lines.
pub open spec fn lines_of(s: Seq<char>) -> Seq<Seq<char>> {
    if s.len() == 0 {
        Seq::<Seq<char>>::empty()
    } else {
        let segs = split_newlines(s);
        if segs.last().len() == 0 {
            segs.drop_last()
        } else {
            segs
        }
    }
}

/// The lines of `text`, as a vector.
pub fn lines_vec(text: &str) -> (r: Vec<String>)
    ensures
        r.deep_view() == lines_of(text@),
{
    if text.unicode_len() == 0 {
        let r: Vec<String> = Vec::new();
        proof {
            assert(r.deep_view() =~~= lines_of(text@));
        }
        return r;
    }
    let mut segs = split_lines(text);
    proof {
        lemma_split_newlines_len(text@);
    }
    let last_is_empty = segs[segs.len() - 1].as_str().unicode_len() == 0;
    if last_is_empty {
        let ghost before = segs.deep_view();
        let _ = segs.pop();
        proof {
            assert(segs.deep_view() =~~= before.drop_last());
        }
    }
    segs
}

/// The length of the longest segment, or zero when there are none.
pub open spec fn max_seg_len(segs: Seq<Seq<char>>) -> nat
    decreases segs.len(),
{
    if segs.len() == 0 {
        0
    } else {
        let rest = max_seg_len(segs.drop_last());
        if segs.last().len() > rest {
            segs.last().len()
        } else {
            rest
        }
    }
}

/// No segment is longer than the longest one.
pub proof fn lemma_seg_le_max(segs: Seq<Seq<char>>, i: int)
    requires
        0 <= i < segs.len(),
    ensures
        segs[i].len() <= max_seg_len(segs),
    decreases segs.len(),
{
    if i < segs.len() - 1 {
        lemma_seg_le_max(segs.drop_last(), i);
    }
}

/// No segment of a split is longer than the text that was split.
pub proof fn lemma_max_seg_le_len(s: Seq<char>)
    ensures
        max_seg_len(split_newlines(s)) <= s.len(),
    decreases s.len(),
{
    if s.len() == 0 {
        let segs = split_newlines(s);
        assert(segs == seq![Seq::<char>::empty()]);
        assert(segs.drop_last() =~~= Seq::<Seq<char>>::empty());
        assert(max_seg_len(segs.drop_last()) == 0);
        assert(segs.last() == Seq::<char>::empty());
        assert(max_seg_len(segs) == 0);
    } else {
        lemma_max_seg_le_len(s.drop_last());
        lemma_split_newlines_len(s.drop_last());
        let rest = split_newlines(s.drop_last());
        if s.last() == '\n' {
            assert(split_newlines(s) == rest.push(Seq::<char>::empty()));
            assert(split_newlines(s).drop_last() =~~= rest);
            assert(split_newlines(s).last() == Seq::<char>::empty());
            assert(max_seg_len(split_newlines(s)) <= s.len());
        } else {
            let upd = rest.update(rest.len() - 1, rest.last().push(s.last()));
            assert(split_newlines(s) == upd);
            assert(upd.drop_last() =~~= rest.drop_last());
            assert(upd.last() == rest.last().push(s.last()));
            assert(max_seg_len(rest) >= rest.last().len());
            assert(max_seg_len(rest) >= max_seg_len(rest.drop_last()));
            assert(max_seg_len(upd) <= s.len());
        }
    }
}

/// The length of the longest segment of `segs`, or zero when there are
/// none.
pub fn max_line_len(segs: &Vec<String>) -> (r: usize)
    ensures
        r == max_seg_len(segs.deep_view()),
{
    let mut r: usize = 0;
    let mut i: usize = 0;
    while i < segs.len()
        invariant
            i <= segs@.len(),
            r == max_seg_len(segs.deep_view().subrange(0, i as int)),
        decreases segs@.len() - i,
    {
        proof {
            assert(segs.deep_view().subrange(0, i + 1 as int).drop_last() =~= segs.deep_view()
                .subrange(0, i as int));
        }
        let len = segs[i].as_str().unicode_len();
        if len > r {
            r = len;
        }
        i = i + 1;
    }
    proof {
        assert(segs.deep_view().subrange(0, segs.deep_view().len() as int) =~= segs.deep_view());
    }
    r
}

} // verus!
