use std::ops::Range;
use unicode_segmentation::UnicodeSegmentation;
use unicode_width::UnicodeWidthStr;
use vstd::prelude::*;

verus! {

/// The extended grapheme clusters of a text, in order.
pub uninterp spec fn graphemes_of(text: Seq<char>) -> Seq<Seq<char>>;

/// The number of terminal columns a text occupies.
pub uninterp spec fn width_of(text: Seq<char>) -> usize;

/// Relies on `UnicodeSegmentation::graphemes(text, true)`: the extended grapheme
/// clusters of `text`, each copied into its own string. The clusters are
/// consecutive, non-empty slices of the text that together cover it.
#[verifier::external_body]
fn split_graphemes(text: &str) -> (r: Vec<String>)
    ensures
        r@.len() == graphemes_of(text@).len(),
        forall|i: int| 0 <= i < r@.len() ==> #[trigger] r@[i]@ == graphemes_of(text@)[i],
        forall|i: int| 0 <= i < r@.len() ==> #[trigger] r@[i]@.len() > 0,
        joined(r@.map_values(|g: String| g@)) == text@,
{
    text.graphemes(true).map(|g| g.to_string()).collect()
}

/// Relies on `UnicodeWidthStr::width`: the displayed width of `text` in columns.
#[verifier::external_body]
fn display_width(text: &str) -> (r: usize)
    ensures
        r == width_of(text@),
{
    text.width()
}

/// Relies on `String::push`: appends one character.
#[verifier::external_body]
fn push_char(s: &mut String, c: char)
    ensures
        final(s)@ == old(s)@.push(c),
{
    s.push(c);
}

/// How many columns a grapheme takes on screen.
#[derive(Clone, Copy, PartialEq, Eq, Structural)]
pub enum GraphemeWidth {
    Half,
    Full,
}

/// The column class of a grapheme of the given display width.
pub open spec fn width_class(width: usize) -> GraphemeWidth {
    if width <= 1 {
        GraphemeWidth::Half
    } else {
        GraphemeWidth::Full
    }
}

/// What stands on screen in place of a grapheme of the given display width.
pub open spec fn replacement_for(width: usize) -> Option<char> {
    if width == 0 {
        Some('.')
    } else {
        None
    }
}

struct TextFragment {
    grapheme: String,
    rendered_width: GraphemeWidth,
    replacement: Option<char>,
}

impl TextFragment {
    spec fn rendered(&self) -> Seq<char> {
        match self.replacement {
            Some(c) => seq![c],
            None => self.grapheme@,
        }
    }

    spec fn well_formed(&self) -> bool {
        &&& self.grapheme@.len() > 0
        &&& self.rendered_width == width_class(width_of(self.grapheme@))
        &&& self.replacement == replacement_for(width_of(self.grapheme@))
    }
}

/// What a grapheme cluster shows on screen: itself, or its replacement where
/// it has no width.
pub open spec fn shown(grapheme: Seq<char>) -> Seq<char> {
    match replacement_for(width_of(grapheme)) {
        Some(c) => seq![c],
        None => grapheme,
    }
}

/// The texts of a sequence, joined in order.
pub open spec fn joined(parts: Seq<Seq<char>>) -> Seq<char>
    decreases parts.len(),
{
    if parts.len() == 0 {
        Seq::empty()
    } else {
        joined(parts.drop_last()) + parts.last()
    }
}

/// A row of text as a sequence of grapheme clusters.
pub struct Line {
    fragments: Vec<TextFragment>,
}

impl Line {
    /// The grapheme clusters of the line.
    pub closed spec fn graphemes(&self) -> Seq<Seq<char>> {
        self.fragments@.map_values(|f: TextFragment| f.grapheme@)
    }

    /// What each grapheme cluster shows on screen.
    pub open spec fn rendered(&self) -> Seq<Seq<char>> {
        self.graphemes().map_values(|g: Seq<char>| shown(g))
    }

    /// Every fragment holds a non-empty grapheme, with the width class and
    /// replacement of that grapheme.
    #[verifier::type_invariant]
    spec fn well_formed(&self) -> bool {
        forall|i: int| 0 <= i < self.fragments@.len() ==> #[trigger] self.fragments@[i].well_formed()
    }

    /// The number of grapheme clusters.
    pub open spec fn length_spec(&self) -> int {
        self.graphemes().len() as int
    }

    /// An index clamped to `n`.
    pub open spec fn clamp(i: int, n: int) -> int {
        if i < n {
            i
        } else {
            n
        }
    }

    /// The screen text of the graphemes at indices `start..end`, both clamped
    /// to the line; empty where the clamped range is.
    pub open spec fn slice_text(&self, start: int, end: int) -> Seq<char> {
        let n = self.length_spec();
        let s = Line::clamp(start, n);
        let e = Line::clamp(end, n);
        if s >= e {
            Seq::empty()
        } else {
            joined(self.rendered().subrange(s, e))
        }
    }

    pub fn from(text: &str) -> (line: Self)
        ensures
            line.graphemes() == graphemes_of(text@),
            joined(line.graphemes()) == text@,
            forall|i: int| 0 <= i < line.graphemes().len() ==> #[trigger] line.graphemes()[i].len() > 0,
    {
        let graphemes = split_graphemes(text);
        let mut fragments: Vec<TextFragment> = Vec::new();
        let mut i: usize = 0;
        while i < graphemes.len()
            invariant
                i <= graphemes@.len(),
                graphemes@.len() == graphemes_of(text@).len(),
                forall|j: int| 0 <= j < graphemes@.len() ==> #[trigger] graphemes@[j]@ == graphemes_of(text@)[j],
                forall|j: int| 0 <= j < graphemes@.len() ==> #[trigger] graphemes@[j]@.len() > 0,
                joined(graphemes@.map_values(|g: String| g@)) == text@,
                fragments@.len() == i,
                forall|j: int| 0 <= j < i ==> (#[trigger] fragments@[j]).grapheme@ == graphemes@[j]@,
                forall|j: int| 0 <= j < i ==> (#[trigger] fragments@[j]).well_formed(),
            decreases graphemes@.len() - i,
        {
            let grapheme = graphemes[i].clone();
            let width = display_width(grapheme.as_str());
            let rendered_width = if width <= 1 {
                GraphemeWidth::Half
            } else {
                GraphemeWidth::Full
            };
            let replacement = if width == 0 {
                Some('.')
            } else {
                None
            };
            fragments.push(TextFragment { grapheme, rendered_width, replacement });
            i = i + 1;
        }
        let line = Line { fragments };
        assert(line.graphemes() =~= graphemes_of(text@));
        assert(line.graphemes() =~= graphemes@.map_values(|g: String| g@));
        line
    }

    /// The screen text of the graphemes at `range`, clamped to the line: empty
    /// exactly where the clamped range is.
    pub fn get(&self, range: Range<usize>) -> (r: String)
        ensures
            r@ == self.slice_text(range.start as int, range.end as int),
            (r@.len() == 0) == (Line::clamp(range.start as int, self.length_spec()) >= Line::clamp(
                range.end as int,
                self.length_spec(),
            )),
    {
        proof {
            use_type_invariant(self);
        }
        let len = self.fragments.len();
        let start = if range.start < len {
            range.start
        } else {
            len
        };
        let end = if range.end < len {
            range.end
        } else {
            len
        };
        if start >= end {
            return String::new();
        }
        let mut result = String::new();
        let mut i: usize = start;
        while i < end
            invariant
                start <= i <= end <= self.fragments@.len(),
                result@ == joined(self.rendered().subrange(start as int, i as int)),
                i > start ==> result@.len() > 0,
                forall|j: int| 0 <= j < self.fragments@.len() ==> #[trigger] self.fragments@[j].well_formed(),
            decreases end - i,
        {
            let fragment = &self.fragments[i];
            assert(self.fragments@[i as int].well_formed());
            assert(self.graphemes()[i as int] == fragment.grapheme@);
            match fragment.replacement {
                Some(c) => push_char(&mut result, c),
                None => result.append(fragment.grapheme.as_str()),
            }
            assert(self.rendered().subrange(start as int, i + 1).drop_last()
                =~= self.rendered().subrange(start as int, i as int));
            i = i + 1;
        }
        result
    }

    pub fn length(&self) -> (n: usize)
        ensures
            n == self.graphemes().len(),
    {
        self.fragments.len()
    }
}

/// Joining two sequences of texts one after the other joins their texts one
/// after the other.
pub proof fn lemma_joined_append(a: Seq<Seq<char>>, b: Seq<Seq<char>>)
    ensures
        joined(a + b) == joined(a) + joined(b),
    decreases b.len(),
{
    if b.len() == 0 {
        assert(a + b =~= a);
        assert(joined(b) =~= Seq::<char>::empty());
        assert(joined(a) + joined(b) =~= joined(a));
    } else {
        lemma_joined_append(a, b.drop_last());
        assert((a + b).drop_last() =~= a + b.drop_last());
        assert(joined(a) + joined(b) =~= joined(a) + joined(b.drop_last()) + b.last());
    }
}

/// The text of `start..end` is the text of `start..mid` followed by that of
/// `mid..end`, for any split point between them, in range or past the end.
pub proof fn lemma_slice_text_split(line: Line, start: int, mid: int, end: int)
    requires
        0 <= start <= mid <= end,
    ensures
        line.slice_text(start, end) == line.slice_text(start, mid) + line.slice_text(mid, end),
{
    let n = line.length_spec();
    let s = Line::clamp(start, n);
    let m = Line::clamp(mid, n);
    let e = Line::clamp(end, n);
    let r = line.rendered();
    if s < m && m < e {
        assert(r.subrange(s, e) =~= r.subrange(s, m) + r.subrange(m, e));
        lemma_joined_append(r.subrange(s, m), r.subrange(m, e));
    } else if s < m {
        assert(line.slice_text(start, end) == line.slice_text(start, mid));
        assert(line.slice_text(start, mid) + line.slice_text(mid, end) =~= line.slice_text(start, mid));
    } else {
        assert(line.slice_text(start, end) == line.slice_text(mid, end));
        assert(line.slice_text(start, mid) + line.slice_text(mid, end) =~= line.slice_text(mid, end));
    }
}

} // verus!
