//! A Unicode-codepoint text buffer with an internal edit position.
//!
//! All mutation goes through [`StringCursor::insert`] (insert at the
//! cursor, advance by one) and [`StringCursor::delete_left`] (remove the
//! codepoint left of the cursor; a no-op at the buffer start).

use vstd::prelude::*;
use crate::text::push_char;
use crate::text::repeated;
use crate::text::lemma_repeated_len;

verus! {

/// The abstract effect of inserting one codepoint into a buffer with
/// contents `content` and edit position `pos`.
pub open spec fn buffer_insert(content: Seq<char>, pos: int, chr: char) -> (Seq<char>, int) {
    (content.insert(pos, chr), pos + 1)
}

/// The abstract effect of deleting the codepoint left of the edit
/// position: a no-op when the cursor sits at the buffer start.
pub open spec fn buffer_delete_left(content: Seq<char>, pos: int) -> (Seq<char>, int) {
    if pos <= 0 {
        (content, pos)
    } else {
        (content.remove(pos - 1), pos - 1)
    }
}

/// A text buffer indexed by Unicode codepoints (not bytes), carrying an
/// edit position `0 <= position <= length`.
pub struct StringCursor {
    chars: Vec<char>,
    position: usize,
}

impl StringCursor {
    /// The buffer contents as a sequence of codepoints.
    pub closed spec fn content(&self) -> Seq<char> {
        self.chars@
    }

    /// The edit position, a codepoint index.
    pub closed spec fn pos(&self) -> int {
        self.position as int
    }

    /// The edit position never leaves the buffer bounds.
    pub open spec fn wf(&self) -> bool {
        0 <= self.pos() <= self.content().len()
    }

    /// An empty buffer with the cursor at the start.
    pub fn new() -> (c: StringCursor)
        ensures
            c.wf(),
            c.content() == Seq::<char>::empty(),
            c.pos() == 0,
    {
        StringCursor { chars: Vec::new(), position: 0 }
    }

    /// Inserts `chr` at the edit position and advances the position by one.
    pub fn insert(&mut self, chr: char)
        requires
            old(self).wf(),
            old(self).content().len() < usize::MAX,
        ensures
            final(self).wf(),
            (final(self).content(), final(self).pos()) == buffer_insert(
                old(self).content(),
                old(self).pos(),
                chr,
            ),
    {
        self.chars.insert(self.position, chr);
        self.position = self.position + 1;
    }

    /// Removes the codepoint immediately left of the edit position and
    /// moves the position back by one; does nothing at the buffer start.
    pub fn delete_left(&mut self)
        requires
            old(self).wf(),
        ensures
            final(self).wf(),
            (final(self).content(), final(self).pos()) == buffer_delete_left(
                old(self).content(),
                old(self).pos(),
            ),
            old(self).pos() == 0 ==> *final(self) == *old(self),
    {
        if self.position > 0 {
            self.chars.remove(self.position - 1);
            self.position = self.position - 1;
        }
    }

    /// The number of codepoints in the buffer.
    pub fn len(&self) -> (n: usize)
        ensures
            n == self.content().len(),
    {
        self.chars.len()
    }

    /// The edit position, as a codepoint index.
    pub fn position(&self) -> (p: usize)
        ensures
            p == self.pos(),
    {
        self.position
    }

    /// The buffer contents `from..to` as a `String`.
    fn text_of_range(&self, from: usize, to: usize) -> (r: String)
        requires
            from <= to <= self.content().len(),
        ensures
            r@ == self.content().subrange(from as int, to as int),
    {
        let mut r = String::new();
        let mut i: usize = from;
        while i < to
            invariant
                from <= i <= to <= self.chars@.len(),
                r@ == self.chars@.subrange(from as int, i as int),
            decreases to - i,
        {
            push_char(&mut r, self.chars[i]);
            proof {
                assert(r@ =~= self.chars@.subrange(from as int, i + 1 as int));
            }
            i = i + 1;
        }
        r
    }

    /// The full buffer contents as a `String`, independent of the cursor.
    pub fn to_text(&self) -> (r: String)
        requires
            self.wf(),
        ensures
            r@ == self.content(),
    {
        let r = self.text_of_range(0, self.chars.len());
        proof {
            assert(self.content().subrange(0, self.content().len() as int) =~= self.content());
        }
        r
    }

    /// The three-way split `(left, caret, right)` used to render the caret
    /// in place: `caret` is the codepoint at the edit position, or empty
    /// when the cursor sits at the end of the buffer.
    pub fn split(&self) -> (r: (String, String, String))
        requires
            self.wf(),
        ensures
            r.0@ == self.content().subrange(0, self.pos()),
            self.pos() < self.content().len() ==> r.1@ == seq![self.content()[self.pos()]]
                && r.2@ == self.content().subrange(self.pos() + 1, self.content().len() as int),
            self.pos() == self.content().len() ==> r.1@ == Seq::<char>::empty() && r.2@
                == Seq::<char>::empty(),
    {
        let left = self.text_of_range(0, self.position);
        if self.position < self.chars.len() {
            let mut caret = String::new();
            push_char(&mut caret, self.chars[self.position]);
            let right = self.text_of_range(self.position + 1, self.chars.len());
            proof {
                assert(caret@ =~= seq![self.content()[self.pos()]]);
            }
            (left, caret, right)
        } else {
            (left, String::new(), String::new())
        }
    }

    /// A buffer in which every codepoint is replaced by the glyphs of
    /// `mask`, with the edit position scaled to keep the caret in place.
    pub fn to_masked(&self, mask: &str) -> (r: StringCursor)
        requires
            self.wf(),
            self.content().len() * mask@.len() <= usize::MAX,
        ensures
            r.wf(),
            r.content() == repeated(mask@, self.content().len() as nat),
            r.pos() == self.pos() * mask@.len(),
    {
        let mask_len = mask.unicode_len();
        let mut chars: Vec<char> = Vec::new();
        let mut i: usize = 0;
        proof {
            vstd::arithmetic::mul::lemma_mul_inequality(
                self.pos(),
                self.content().len() as int,
                mask@.len() as int,
            );
            vstd::arithmetic::mul::lemma_mul_is_commutative(
                self.pos(),
                mask@.len() as int,
            );
            vstd::arithmetic::mul::lemma_mul_is_commutative(
                self.content().len() as int,
                mask@.len() as int,
            );
        }
        while i < self.chars.len()
            invariant
                i <= self.chars@.len(),
                self.chars@.len() * mask@.len() <= usize::MAX,
                mask_len == mask@.len(),
                chars@.len() == i * mask@.len(),
                chars@ == repeated(mask@, i as nat),
            decreases self.chars@.len() - i,
        {
            proof {
                vstd::arithmetic::mul::lemma_mul_inequality(
                    i + 1,
                    self.chars@.len() as int,
                    mask@.len() as int,
                );
                vstd::arithmetic::mul::lemma_mul_is_distributive_add_other_way(
                    mask@.len() as int,
                    i as int,
                    1,
                );
            }
            let mut j: usize = 0;
            while j < mask_len
                invariant
                    j <= mask_len,
                    mask_len == mask@.len(),
                    (i + 1) * mask@.len() <= usize::MAX,
                    chars@.len() == i * mask@.len() + j,
                    chars@ == repeated(mask@, i as nat) + mask@.subrange(0, j as int),
                decreases mask_len - j,
            {
                let c = mask.get_char(j);
                chars.push(c);
                proof {
                    assert(chars@ =~= repeated(mask@, i as nat) + mask@.subrange(
                        0,
                        j + 1 as int,
                    ));
                }
                j = j + 1;
            }
            proof {
                assert(mask@.subrange(0, mask@.len() as int) =~= mask@);
                assert(chars@ =~= repeated(mask@, (i + 1) as nat));
            }
            i = i + 1;
        }
        let position = self.position * mask_len;
        StringCursor { chars, position }
    }
}

/// The buffer reached from `(content, pos)` by inserting the codepoints
/// of `inserts`, in order, each at the current edit position.
pub open spec fn buffer_after_insertions(content: Seq<char>, pos: int, inserts: Seq<char>) -> (
    Seq<char>,
    int,
)
    decreases inserts.len(),
{
    if inserts.len() == 0 {
        (content, pos)
    } else {
        let step = buffer_insert(content, pos, inserts[0]);
        buffer_after_insertions(step.0, step.1, inserts.subrange(1, inserts.len() as int))
    }
}

/// Inserting a sequence of codepoints splices it in at the edit position
/// and moves the position past it.
pub proof fn lemma_insertions_splice(content: Seq<char>, pos: int, inserts: Seq<char>)
    requires
        0 <= pos <= content.len(),
    ensures
        buffer_after_insertions(content, pos, inserts).0 == content.subrange(0, pos) + inserts
            + content.subrange(pos, content.len() as int),
        buffer_after_insertions(content, pos, inserts).1 == pos + inserts.len(),
    decreases inserts.len(),
{
    if inserts.len() == 0 {
        assert(buffer_after_insertions(content, pos, inserts).0 =~= content.subrange(0, pos)
            + inserts + content.subrange(pos, content.len() as int));
    } else {
        let chr = inserts[0];
        let content2 = content.insert(pos, chr);
        lemma_insertions_splice(content2, pos + 1, inserts.subrange(1, inserts.len() as int));
        assert(content2.subrange(0, pos + 1) =~= content.subrange(0, pos) + seq![chr]);
        assert(content2.subrange(pos + 1, content2.len() as int) =~= content.subrange(
            pos,
            content.len() as int,
        ));
        assert(content.subrange(0, pos) + seq![chr] + inserts.subrange(1, inserts.len() as int)
            =~= content.subrange(0, pos) + inserts);
        assert(buffer_after_insertions(content, pos, inserts).0 =~= content.subrange(0, pos)
            + inserts + content.subrange(pos, content.len() as int));
    }
}

/// Typing a sequence of codepoints into an empty buffer yields exactly
/// that sequence, with the edit position equal to the count typed.
pub proof fn lemma_insertions_concatenate(inserts: Seq<char>)
    ensures
        buffer_after_insertions(Seq::<char>::empty(), 0, inserts).0 == inserts,
        buffer_after_insertions(Seq::<char>::empty(), 0, inserts).1 == inserts.len(),
{
    lemma_insertions_splice(Seq::<char>::empty(), 0, inserts);
    assert(Seq::<char>::empty().subrange(0, 0) + inserts + Seq::<char>::empty().subrange(0, 0)
        =~= inserts);
}

/// Inserting one codepoint and then deleting left restores the buffer
/// contents and the edit position, from any starting state.
pub proof fn lemma_insert_delete_round_trip(content: Seq<char>, pos: int, chr: char)
    requires
        0 <= pos <= content.len(),
    ensures
        buffer_delete_left(
            buffer_insert(content, pos, chr).0,
            buffer_insert(content, pos, chr).1,
        ) == (content, pos),
{
    assert(content.insert(pos, chr).remove(pos) =~= content);
}

} // verus!
