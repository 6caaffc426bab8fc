use vstd::prelude::*;

verus! {

/// A window `[start, end)` into a sequence of `char`s.
///
/// Nothing forces `start <= end`; the operations that need it say so in
/// their `requires`.
#[derive(Debug, Clone, Copy, PartialEq, Eq, Structural)]
pub struct Span {
    pub start: usize,
    pub end: usize,
}

impl Span {
    /// The number of positions covered, as a mathematical integer
    /// (negative when `start > end`).
    pub open spec fn spec_len(self) -> int {
        self.end - self.start
    }

    /// Whether the span covers no position.
    pub open spec fn spec_is_empty(self) -> bool {
        self.start == self.end
    }

    /// Whether the closed ranges `[start, end]` and `[other.start, other.end]`
    /// meet: spans that only touch at a boundary count as overlapping.
    pub open spec fn spec_overlaps(self, other: Span) -> bool {
        let lo = if self.start >= other.start { self.start } else { other.start };
        let hi = if self.end <= other.end { self.end } else { other.end };
        lo <= hi
    }

    /// This span with its end moved to `start + length`.
    pub open spec fn spec_with_len(self, length: nat) -> Span
        recommends
            self.start + length <= usize::MAX,
    {
        Span { start: self.start, end: (self.start + length) as usize }
    }

    /// This span moved `by` positions to the right.
    pub open spec fn spec_offset(self, by: nat) -> Span
        recommends
            self.end + by <= usize::MAX,
            self.start + by <= usize::MAX,
    {
        Span { start: (self.start + by) as usize, end: (self.end + by) as usize }
    }

    /// The characters of `source` that the span covers.
    pub open spec fn spec_content(self, source: Seq<char>) -> Seq<char> {
        source.subrange(self.start as int, self.end as int)
    }

    /// A span from `start` to `end`, taken as given.
    pub fn new(start: usize, end: usize) -> (r: Span)
        ensures
            r.start == start,
            r.end == end,
    {
        Span { start, end }
    }

    /// The number of positions covered, `end - start`.
    pub fn len(&self) -> (r: usize)
        requires
            self.start <= self.end,
        ensures
            r == self.spec_len(),
    {
        self.end - self.start
    }

    /// Whether `start == end`, that is, whether the length is zero.
    pub fn is_empty(&self) -> (r: bool)
        ensures
            r == self.spec_is_empty(),
    {
        self.start == self.end
    }

    /// Whether the two spans meet, counting both endpoints as inside:
    /// `max(starts) <= min(ends)`.
    pub fn overlaps_with(&self, other: Span) -> (r: bool)
        ensures
            r == self.spec_overlaps(other),
    {
        self.start.max(other.start) <= self.end.min(other.end)
    }

    /// The characters of `source` inside the span. The span must be
    /// non-empty and lie within `source`.
    pub fn get_content<'a>(&self, source: &'a [char]) -> (r: &'a [char])
        requires
            self.start < self.end,
            self.end <= source@.len(),
        ensures
            r@ == self.spec_content(source@),
    {
        vstd::slice::slice_subrange(source, self.start, self.end)
    }

    /// The characters of `source` inside the span, as an owned `String`.
    pub fn get_content_string(&self, source: &[char]) -> (r: String)
        requires
            self.start < self.end,
            self.end <= source@.len(),
        ensures
            r@ == self.spec_content(source@),
    {
        string_from_chars(self.get_content(source))
    }

    /// Moves the end to `start + length`, keeping the start.
    pub fn set_len(&mut self, length: usize)
        requires
            old(self).start + length <= usize::MAX,
        ensures
            *final(self) == old(self).spec_with_len(length as nat),
    {
        self.end = self.start + length;
    }

    /// A copy of this span whose end is `start + length`.
    pub fn with_len(&self, length: usize) -> (r: Span)
        requires
            self.start + length <= usize::MAX,
        ensures
            r == self.spec_with_len(length as nat),
    {
        let mut cloned = *self;
        cloned.set_len(length);
        cloned
    }

    /// Adds `by` to both ends, moving the span into the coordinates of a
    /// text that starts `by` positions earlier.
    pub fn offset(&mut self, by: usize)
        requires
            old(self).start + by <= usize::MAX,
            old(self).end + by <= usize::MAX,
        ensures
            *final(self) == old(self).spec_offset(by as nat),
    {
        self.start = self.start + by;
        self.end = self.end + by;
    }
}

impl Default for Span {
    /// The empty span at position zero.
    fn default() -> (r: Span)
        ensures
            r.start == 0,
            r.end == 0,
    {
        Span { start: 0, end: 0 }
    }
}

/// Relies on `String`'s `FromIterator<&char>`: the string holds the given
/// characters, in order.
#[verifier::external_body]
fn string_from_chars(chars: &[char]) -> (r: String)
    ensures
        r@ == chars@,
{
    String::from_iter(chars)
}

/// For every span, emptiness is a length of zero.
pub proof fn lemma_is_empty_iff_len_zero(s: Span)
    ensures
        s.spec_is_empty() <==> s.spec_len() == 0,
{
}

/// Overlap does not depend on the order of the two spans.
pub proof fn lemma_overlaps_symmetric(a: Span, b: Span)
    ensures
        a.spec_overlaps(b) == b.spec_overlaps(a),
{
}

} // verus!
