//! Styled ranges over a text, kept in step with the edits of that text.

use std::ops::Range;
use vstd::prelude::*;

verus! {

/// How a stretch of text is drawn.
#[derive(Debug, Clone, Copy, PartialEq, Eq, Structural)]
pub struct Style {
    /// `0xRRGGBB`
    pub color: u32,
    pub bold: bool,
    pub italic: bool,
}

/// A style and the character positions it covers.
#[derive(Debug)]
pub struct StyleSpan {
    pub range: Range<usize>,
    pub style: Style,
}

impl Clone for StyleSpan {
    fn clone(&self) -> (copy: Self)
        ensures
            copy == *self,
    {
        StyleSpan { range: self.range.start..self.range.end, style: self.style }
    }
}

/// The styled ranges of one text, in the order in which they were added.
#[derive(Debug)]
pub struct StyleMap {
    spans: Vec<StyleSpan>,
}

/// Where the position `p` lies once `len` characters have been inserted at
/// `at`. A position at or behind the insertion moves; one before it stays.
pub open spec fn start_after_insert(p: int, at: int, len: int) -> int {
    if p >= at {
        p + len
    } else {
        p
    }
}

/// Where the end `p` of a span lies once `len` characters have been inserted
/// at `at`: an end strictly behind the insertion moves, so text inserted
/// inside a span widens it and text inserted right at its end does not.
pub open spec fn end_after_insert(start: int, p: int, at: int, len: int) -> int {
    if start >= at || p > at {
        p + len
    } else {
        p
    }
}

/// Whether `span` survives the removal of the characters `from..to`. A span
/// goes exactly when it reaches into the removed stretch and lies wholly
/// within it.
pub open spec fn survives_delete(span: StyleSpan, from: int, to: int) -> bool {
    let s = span.range.start as int;
    let e = span.range.end as int;
    s >= to || e <= from || !(s >= from && e <= to)
}

/// The positions of `span` once the characters `from..to` are removed.
///
/// A span behind the stretch moves forward by its length. A span before it
/// stays. A span that begins before the stretch and reaches into it loses
/// what it had inside; one that begins inside and reaches beyond now begins
/// where the stretch began.
pub open spec fn range_after_delete(span: StyleSpan, from: int, to: int) -> (int, int) {
    let s = span.range.start as int;
    let e = span.range.end as int;
    let len = to - from;
    if s >= to {
        (s - len, e - len)
    } else if e <= from {
        (s, e)
    } else if s < from {
        (
            s,
            from + if e >= to {
                e - to
            } else {
                0
            },
        )
    } else {
        (
            from,
            if e >= len {
                e - len
            } else {
                0
            },
        )
    }
}

/// What is left of `spans` once the characters `from..to` are removed: the
/// survivors, in their old order, at their new positions.
pub open spec fn spans_after_delete(spans: Seq<StyleSpan>, from: int, to: int) -> Seq<StyleSpan>
    decreases spans.len(),
{
    if spans.len() == 0 {
        spans
    } else {
        let rest = spans_after_delete(spans.drop_last(), from, to);
        let span = spans.last();
        if survives_delete(span, from, to) {
            let (s, e) = range_after_delete(span, from, to);
            rest.push(StyleSpan { range: (s as usize)..(e as usize), style: span.style })
        } else {
            rest
        }
    }
}

/// The new place of the position `p` once the characters `from..to` are
/// removed: positions inside the stretch collapse onto its start.
pub open spec fn position_after_delete(p: int, from: int, to: int) -> int {
    if p <= from {
        p
    } else if p < to {
        from
    } else {
        p - (to - from)
    }
}

/// For a span whose start is not behind its end, removal simply moves both
/// ends of a surviving span to their new places, and a span goes only if
/// nothing is left of it.
pub proof fn lemma_delete_moves_both_ends(span: StyleSpan, from: int, to: int)
    requires
        0 <= from <= to,
        span.range.start <= span.range.end,
    ensures
        survives_delete(span, from, to) ==> range_after_delete(span, from, to) == (
            position_after_delete(span.range.start as int, from, to),
            position_after_delete(span.range.end as int, from, to),
        ),
        !survives_delete(span, from, to) ==> position_after_delete(
            span.range.start as int,
            from,
            to,
        ) == position_after_delete(span.range.end as int, from, to),
{
}

impl View for StyleMap {
    type V = Seq<StyleSpan>;

    closed spec fn view(&self) -> Seq<StyleSpan> {
        self.spans@
    }
}

impl StyleMap {
    /// Every position that an insertion of `len` characters at `char_idx`
    /// moves still fits the machine's word.
    pub open spec fn fits_insert(&self, char_idx: usize, len: usize) -> bool {
        forall|i: int|
            0 <= i < self@.len() ==> {
                let span = #[trigger] self@[i];
                &&& span.range.start >= char_idx ==> span.range.start + len <= usize::MAX
                &&& span.range.start >= char_idx || span.range.end > char_idx ==> span.range.end
                    + len <= usize::MAX
            }
    }

    /// No span behind the stretch `from..to` ends before a position that the
    /// removal could move it to.
    pub open spec fn fits_delete(&self, from: usize, to: usize) -> bool {
        forall|i: int|
            0 <= i < self@.len() ==> ((#[trigger] self@[i]).range.start >= to
                ==> self@[i].range.end >= to - from)
    }

    /// A map without spans.
    pub fn new() -> (map: Self)
        ensures
            map@ == Seq::<StyleSpan>::empty(),
    {
        StyleMap { spans: Vec::new() }
    }

    /// Moves the spans to where they lie once `len` characters have been
    /// inserted at `char_idx`.
    pub fn on_insert(&mut self, char_idx: usize, len: usize)
        requires
            old(self).fits_insert(char_idx, len),
        ensures
            final(self)@.len() == old(self)@.len(),
            forall|i: int|
                0 <= i < old(self)@.len() ==> {
                    let before = #[trigger] old(self)@[i];
                    let after = final(self)@[i];
                    &&& after.style == before.style
                    &&& after.range.start == start_after_insert(
                        before.range.start as int,
                        char_idx as int,
                        len as int,
                    )
                    &&& after.range.end == end_after_insert(
                        before.range.start as int,
                        before.range.end as int,
                        char_idx as int,
                        len as int,
                    )
                },
    {
        let n = self.spans.len();
        let mut i: usize = 0;
        while i < n
            invariant
                i <= n,
                n == self.spans@.len(),
                n == old(self)@.len(),
                old(self).fits_insert(char_idx, len),
                forall|k: int| i <= k < n ==> self.spans@[k] == old(self)@[k],
                forall|k: int|
                    0 <= k < i ==> {
                        let before = #[trigger] old(self)@[k];
                        let after = self.spans@[k];
                        &&& after.style == before.style
                        &&& after.range.start == start_after_insert(
                            before.range.start as int,
                            char_idx as int,
                            len as int,
                        )
                        &&& after.range.end == end_after_insert(
                            before.range.start as int,
                            before.range.end as int,
                            char_idx as int,
                            len as int,
                        )
                    },
            decreases n - i,
        {
            let start = self.spans[i].range.start;
            let end = self.spans[i].range.end;
            let style = self.spans[i].style;
            assert(old(self)@[i as int] == self.spans@[i as int]);
            if start >= char_idx {
                self.spans.set(i, StyleSpan { range: (start + len)..(end + len), style });
            } else if end > char_idx {
                self.spans.set(i, StyleSpan { range: start..(end + len), style });
            }
            i = i + 1;
        }
    }

    /// Moves the spans to where they lie once the characters of `range` are
    /// removed, and drops those of which nothing is left.
    pub fn on_delete(&mut self, range: Range<usize>)
        requires
            range.start <= range.end,
            old(self).fits_delete(range.start, range.end),
        ensures
            final(self)@ == spans_after_delete(old(self)@, range.start as int, range.end as int),
    {
        let from = range.start;
        let to = range.end;
        let len = to - from;
        let mut kept: Vec<StyleSpan> = Vec::new();
        let n = self.spans.len();
        let mut i: usize = 0;
        assert(self.spans@.take(0) =~= Seq::<StyleSpan>::empty());
        while i < n
            invariant
                i <= n,
                n == self.spans@.len(),
                self.spans@ == old(self)@,
                from <= to,
                len == to - from,
                old(self).fits_delete(from, to),
                kept@ == spans_after_delete(self.spans@.take(i as int), from as int, to as int),
            decreases n - i,
        {
            let start = self.spans[i].range.start;
            let end = self.spans[i].range.end;
            let style = self.spans[i].style;
            proof {
                let next = self.spans@.take(i + 1);
                assert(next.drop_last() =~= self.spans@.take(i as int));
                assert(next.last() == self.spans@[i as int]);
                assert(old(self)@[i as int] == self.spans@[i as int]);
            }
            if start >= to {
                kept.push(StyleSpan { range: (start - len)..(end - len), style });
            } else if end <= from {
                kept.push(StyleSpan { range: start..end, style });
            } else if start >= from && end <= to {
                // nothing is left of this span
            } else if start < from {
                let tail: usize = if end >= to {
                    end - to
                } else {
                    0
                };
                kept.push(StyleSpan { range: start..(from + tail), style });
            } else {
                let new_end: usize = if end >= len {
                    end - len
                } else {
                    0
                };
                kept.push(StyleSpan { range: from..new_end, style });
            }
            i = i + 1;
        }
        assert(self.spans@.take(n as int) =~= self.spans@);
        self.spans = kept;
    }

    /// Adds a span behind those that are there.
    pub fn add_span(&mut self, range: Range<usize>, style: Style)
        ensures
            final(self)@ == old(self)@.push(StyleSpan { range, style }),
    {
        self.spans.push(StyleSpan { range, style });
    }

    /// The spans, in the order in which they were added.
    pub fn get_spans(&self) -> (spans: &[StyleSpan])
        ensures
            spans@ == self@,
    {
        self.spans.as_slice()
    }
}

impl Clone for StyleMap {
    fn clone(&self) -> (copy: Self)
        ensures
            copy@ == self@,
    {
        let mut spans: Vec<StyleSpan> = Vec::new();
        let n = self.spans.len();
        let mut i: usize = 0;
        while i < n
            invariant
                i <= n,
                n == self.spans@.len(),
                spans@ == self.spans@.take(i as int),
            decreases n - i,
        {
            spans.push(self.spans[i].clone());
            assert(spans@ =~= self.spans@.take(i + 1));
            i = i + 1;
        }
        assert(self.spans@.take(n as int) =~= self.spans@);
        StyleMap { spans }
    }
}

impl Default for StyleMap {
    fn default() -> (map: Self)
        ensures
            map@ == Seq::<StyleSpan>::empty(),
    {
        StyleMap::new()
    }
}

} // verus!
