use crate::buffer::Buffer;
use crate::editorcommand::{Direction, EditorCommand};
use crate::geometry::{sat_add, sat_sub, Location, Position, Size};
use vstd::prelude::*;
use vstd::view::View as _;

verus! {

/// The product named on the welcome banner.
pub const PRODUCT: &'static str = "Hecto";

/// The version named on the welcome banner.
pub const VERSION: &'static str = "0.1.0";

/// The banner's text: product and version.
pub open spec fn banner() -> Seq<char> {
    PRODUCT@ + " -- version "@ + VERSION@
}

/// The welcome row for a viewport `width` columns wide: a single space where
/// the width is zero, the marker alone where the banner does not fit beside
/// it, else the marker, then the padding that centres the banner, then the banner.
pub open spec fn welcome_text(width: usize) -> Seq<char> {
    if width == 0 {
        seq![' ']
    } else if width <= banner().len() {
        seq!['~']
    } else {
        seq!['~'] + Seq::new(((width - banner().len() - 1) / 2) as nat, |_i: int| ' ') + banner()
    }
}

/// The offset along one axis after the least shift that brings `pos` into
/// `[offset, offset + extent)`.
pub open spec fn scroll_axis(pos: usize, offset: usize, extent: usize) -> usize {
    if pos < offset {
        pos
    } else if pos >= sat_add(offset, extent) {
        sat_add(sat_sub(pos, extent), 1)
    } else {
        offset
    }
}

/// The scroll offset after bringing `cursor` into a viewport of `size`.
pub open spec fn scrolled(cursor: Location, offset: Location, size: Size) -> Location {
    Location {
        x: scroll_axis(cursor.x, offset.x, size.width),
        y: scroll_axis(cursor.y, offset.y, size.height),
    }
}

/// The cursor after one step in `direction` over `buffer`, clamped to the
/// line it lands on and to one row past the last line.
pub open spec fn moved(buffer: Buffer, cursor: Location, direction: Direction) -> Location {
    let (x, y) = match direction {
        Direction::Up => (cursor.x as int, sat_sub(cursor.y, 1) as int),
        Direction::Down => (cursor.x as int, sat_add(cursor.y, 1) as int),
        Direction::Left => if cursor.x > 0 {
            (cursor.x - 1, cursor.y as int)
        } else if cursor.y > 0 {
            (buffer.line_length(cursor.y - 1), cursor.y - 1)
        } else {
            (cursor.x as int, cursor.y as int)
        },
        Direction::Right => if cursor.x < buffer.line_length(cursor.y as int) {
            (cursor.x + 1, cursor.y as int)
        } else {
            (0, sat_add(cursor.y, 1) as int)
        },
    };
    let n = buffer.lines@.len() as int;
    Location {
        x: (if x < buffer.line_length(y) { x } else { buffer.line_length(y) }) as usize,
        y: (if y < n { y } else { n }) as usize,
    }
}

/// The text buffer, the cursor and scroll window over it, the viewport size,
/// and whether the screen is stale.
pub struct View {
    buffer: Buffer,
    needs_redraw: bool,
    size: Size,
    location: Location,
    scroll_offset: Location,
}

impl View {
    /// The text being viewed.
    pub closed spec fn text(&self) -> Buffer {
        self.buffer
    }

    /// The cursor, in grapheme columns and lines.
    pub closed spec fn cursor(&self) -> Location {
        self.location
    }

    /// The text location shown at the viewport's top-left cell.
    pub closed spec fn offset(&self) -> Location {
        self.scroll_offset
    }

    /// The viewport size.
    pub closed spec fn viewport(&self) -> Size {
        self.size
    }

    /// Whether the screen is stale.
    pub closed spec fn dirty(&self) -> bool {
        self.needs_redraw
    }

    /// What viewport row `r` shows: the visible part of the text line at that
    /// row, the welcome banner a third of the way down an empty buffer, or the
    /// filler glyph past the end of the text.
    pub open spec fn row_text(&self, r: usize) -> Seq<char> {
        let index = sat_add(r, self.offset().y);
        let left = self.offset().x;
        let width = self.viewport().width;
        if (index as int) < self.text().lines@.len() {
            self.text().lines@[index as int].slice_text(left as int, sat_add(left, width) as int)
        } else if r == self.viewport().height / 3 && self.text().lines@.len() == 0 {
            welcome_text(width)
        } else {
            seq!['~']
        }
    }

    /// `after` is `before` with the scroll offset brought round the cursor; the
    /// screen turns stale where the offset moved.
    pub open spec fn scrolls(before: View, after: View) -> bool {
        &&& after.text() == before.text()
        &&& after.cursor() == before.cursor()
        &&& after.viewport() == before.viewport()
        &&& after.offset() == scrolled(before.cursor(), before.offset(), before.viewport())
        &&& after.dirty() == (before.dirty() || after.offset() != before.offset())
    }

    /// `after` is `before` resized to `size`, scrolled round the cursor, stale.
    pub open spec fn resizes(before: View, after: View, size: Size) -> bool {
        &&& after.text() == before.text()
        &&& after.cursor() == before.cursor()
        &&& after.viewport() == size
        &&& after.offset() == scrolled(before.cursor(), before.offset(), size)
        &&& after.dirty()
    }

    /// `after` is `before` with the cursor moved one step and scrolled into view.
    pub open spec fn moves(before: View, after: View, direction: Direction) -> bool {
        &&& after.text() == before.text()
        &&& after.cursor() == moved(before.text(), before.cursor(), direction)
        &&& after.viewport() == before.viewport()
        &&& after.offset() == scrolled(after.cursor(), before.offset(), before.viewport())
        &&& after.dirty() == (before.dirty() || after.offset() != before.offset())
    }

    /// `after` is `before` once `command` is handled.
    pub open spec fn handles(before: View, after: View, command: EditorCommand) -> bool {
        match command {
            EditorCommand::Move(direction) => View::moves(before, after, direction),
            EditorCommand::Resize(size) => View::resizes(before, after, size),
            EditorCommand::Quit => after == before,
        }
    }

    /// A stale `before` paints every viewport row in order, then turns clean; a
    /// clean one paints nothing.
    pub open spec fn renders(before: View, after: View, rows: Seq<(usize, String)>) -> bool {
        &&& after.text() == before.text()
        &&& after.cursor() == before.cursor()
        &&& after.viewport() == before.viewport()
        &&& after.offset() == before.offset()
        &&& !after.dirty()
        &&& if before.dirty() {
            &&& rows.len() == before.viewport().height
            &&& forall|r: int|
                0 <= r < rows.len() ==> (#[trigger] rows[r]).0 == r && rows[r].1@
                    == before.row_text(r as usize)
        } else {
            rows.len() == 0
        }
    }

    pub fn resize(&mut self, to: Size)
        ensures
            View::resizes(*old(self), *final(self), to),
    {
        self.size = to;
        self.scroll_location_into_view();
        self.needs_redraw = true;
    }

    pub fn scroll_location_into_view(&mut self)
        ensures
            View::scrolls(*old(self), *final(self)),
    {
        let x = self.location.x;
        let y = self.location.y;
        let width = self.size.width;
        let height = self.size.height;
        let mut offset_changed = false;

        if y < self.scroll_offset.y {
            self.scroll_offset.y = y;
            offset_changed = true;
        } else if y >= self.scroll_offset.y.saturating_add(height) {
            let top = y.saturating_sub(height).saturating_add(1);
            offset_changed = top != self.scroll_offset.y;
            self.scroll_offset.y = top;
        }
        if x < self.scroll_offset.x {
            self.scroll_offset.x = x;
            offset_changed = true;
        } else if x >= self.scroll_offset.x.saturating_add(width) {
            let left = x.saturating_sub(width).saturating_add(1);
            offset_changed = offset_changed || left != self.scroll_offset.x;
            self.scroll_offset.x = left;
        }
        self.needs_redraw = self.needs_redraw || offset_changed;
    }

    /// `after` is `before` with the text of a file read as `file_contents`;
    /// where the read failed (`None`), nothing changes.
    pub open spec fn loads(before: View, after: View, file_contents: Option<Seq<char>>) -> bool {
        match file_contents {
            Some(text) => {
                &&& after.text().holds(text)
                &&& after.cursor() == before.cursor()
                &&& after.viewport() == before.viewport()
                &&& after.offset() == before.offset()
                &&& after.dirty()
            },
            None => after == before,
        }
    }

    /// The grapheme count of line `y`, or zero past the end of the text.
    fn line_length(&self, y: usize) -> (n: usize)
        ensures
            n == self.text().line_length(y as int),
    {
        if y < self.buffer.lines.len() {
            self.buffer.lines[y].length()
        } else {
            0
        }
    }

    fn move_text_location(&mut self, direction: &Direction)
        ensures
            View::moves(*old(self), *final(self), *direction),
    {
        let mut x = self.location.x;
        let mut y = self.location.y;
        match direction {
            Direction::Up => {
                y = y.saturating_sub(1);
            },
            Direction::Down => {
                y = y.saturating_add(1);
            },
            Direction::Left => {
                if x > 0 {
                    x = x - 1;
                } else if y > 0 {
                    y = y - 1;
                    x = self.line_length(y);
                }
            },
            Direction::Right => {
                let width = self.line_length(y);
                if x < width {
                    x = x + 1;
                } else {
                    y = y.saturating_add(1);
                    x = 0;
                }
            },
        }
        let length = self.line_length(y);
        if x > length {
            x = length;
        }
        let count = self.buffer.lines.len();
        if y > count {
            y = count;
        }
        self.location = Location { x, y };
        self.scroll_location_into_view();
    }

    pub fn handle_command(&mut self, command: EditorCommand)
        ensures
            View::handles(*old(self), *final(self), command),
    {
        match command {
            EditorCommand::Move(direction) => self.move_text_location(&direction),
            EditorCommand::Resize(size) => self.resize(size),
            EditorCommand::Quit => {},
        }
    }

    /// Where the caret stands on screen: the cursor relative to the scroll offset.
    pub fn get_position(&self) -> (p: Position)
        ensures
            p.col == sat_sub(self.cursor().x, self.offset().x),
            p.row == sat_sub(self.cursor().y, self.offset().y),
    {
        Position::from(self.location.subtract(&self.scroll_offset))
    }

    /// Replaces the text with `file_contents` where the file could be read.
    pub fn load(&mut self, file_contents: Option<&str>)
        ensures
            View::loads(
                *old(self),
                *final(self),
                match file_contents {
                    Some(t) => Some(t@),
                    None => None,
                },
            ),
    {
        match file_contents {
            Some(text) => {
                self.buffer = Buffer::load(text);
                self.needs_redraw = true;
            },
            None => {},
        }
    }

    pub fn build_welcome_message(width: usize) -> (r: String)
        ensures
            r@ == welcome_text(width),
            r@.len() <= if width == 0 { 1 } else { width as int },
    {
        proof {
            reveal_strlit(" ");
            reveal_strlit("~");
        }
        if width == 0 {
            return String::from_str(" ");
        }
        let mut name_and_version = String::from_str(PRODUCT);
        name_and_version.append(" -- version ");
        name_and_version.append(VERSION);
        let len = name_and_version.as_str().unicode_len();
        if width <= len {
            return String::from_str("~");
        }
        let padding = (width - len - 1) / 2;
        let mut message = String::from_str("~");
        let mut i: usize = 0;
        while i < padding
            invariant
                i <= padding,
                message@ == seq!['~'] + Seq::new(i as nat, |_i: int| ' '),
            decreases padding - i,
        {
            message.append(" ");
            proof {
                reveal_strlit(" ");
            }
            assert(seq!['~'] + Seq::new((i + 1) as nat, |_i: int| ' ') =~= seq!['~'] + Seq::new(
                i as nat,
                |_i: int| ' ',
            ) + " "@);
            i = i + 1;
        }
        message.append(name_and_version.as_str());
        message
    }

    /// The rows to paint, each with its index, where the screen is stale; none
    /// where it is clean. Afterwards the screen is clean.
    pub fn render(&mut self) -> (rows: Vec<(usize, String)>)
        ensures
            View::renders(*old(self), *final(self), rows@),
    {
        if !self.needs_redraw {
            return Vec::new();
        }
        let height = self.size.height;
        let width = self.size.width;
        let vertical_center = height / 3;
        let top = self.scroll_offset.y;
        let left = self.scroll_offset.x;
        let right = left.saturating_add(width);
        let mut rows: Vec<(usize, String)> = Vec::new();
        let mut row: usize = 0;
        while row < height
            invariant
                *self == *old(self),
                height == self.viewport().height,
                width == self.viewport().width,
                vertical_center == height / 3,
                top == self.offset().y,
                left == self.offset().x,
                right == sat_add(left, width),
                row <= height,
                rows@.len() == row,
                forall|r: int|
                    0 <= r < row ==> (#[trigger] rows@[r]).0 == r && rows@[r].1@ == self.row_text(
                        r as usize,
                    ),
            decreases height - row,
        {
            let index = row.saturating_add(top);
            let text = if index < self.buffer.lines.len() {
                self.buffer.lines[index].get(left..right)
            } else if row == vertical_center && self.buffer.is_empty() {
                Self::build_welcome_message(width)
            } else {
                String::from_str("~")
            };
            proof {
                reveal_strlit("~");
            }
            rows.push((row, text));
            row = row + 1;
        }
        self.needs_redraw = false;
        rows
    }

    /// The cursor location.
    pub fn location(&self) -> (r: Location)
        ensures
            r == self.cursor(),
    {
        self.location
    }

    /// The text location at the viewport's top-left cell.
    pub fn scroll_offset(&self) -> (r: Location)
        ensures
            r == self.offset(),
    {
        self.scroll_offset
    }

    /// The viewport size.
    pub fn size(&self) -> (r: Size)
        ensures
            r == self.viewport(),
    {
        self.size
    }

    /// Whether the next render paints.
    pub fn needs_redraw(&self) -> (r: bool)
        ensures
            r == self.dirty(),
    {
        self.needs_redraw
    }

    /// Whether the text has no lines.
    pub fn is_empty(&self) -> (r: bool)
        ensures
            r == (self.text().lines@.len() == 0),
    {
        self.buffer.is_empty()
    }
}

impl Default for View {
    /// An empty text with the cursor and scroll window at the origin, a zero
    /// viewport, and a stale screen so that the first render paints.
    fn default() -> (r: Self)
        ensures
            r.text().lines@.len() == 0,
            r.cursor() == (Location { x: 0, y: 0 }),
            r.offset() == (Location { x: 0, y: 0 }),
            r.viewport() == (Size { width: 0, height: 0 }),
            r.dirty(),
    {
        View {
            buffer: Buffer::default(),
            needs_redraw: true,
            size: Size::default(),
            location: Location::default(),
            scroll_offset: Location::default(),
        }
    }
}

/// Rendering twice with nothing changed in between paints nothing the second
/// time, and leaves the view as the first render left it.
pub proof fn lemma_render_twice(
    v0: View,
    v1: View,
    v2: View,
    first: Seq<(usize, String)>,
    second: Seq<(usize, String)>,
)
    requires
        View::renders(v0, v1, first),
        View::renders(v1, v2, second),
    ensures
        second.len() == 0,
        v2 == v1,
{
}

/// A load whose read failed leaves the view as it was, so whether its text is
/// empty does not change.
pub proof fn lemma_failed_load_keeps_text(before: View, after: View)
    requires
        View::loads(before, after, None),
    ensures
        after.text() == before.text(),
        (after.text().lines@.len() == 0) == (before.text().lines@.len() == 0),
{
}

/// Scrolling an axis of positive extent puts `pos` inside the window
/// `[offset, offset + extent)`.
pub proof fn lemma_scroll_axis_contains(pos: usize, offset: usize, extent: usize)
    requires
        extent > 0,
    ensures
        scroll_axis(pos, offset, extent) <= pos < scroll_axis(pos, offset, extent) + extent,
{
}

/// After a cursor move in a viewport with at least one row and one column, the
/// cursor lies inside the viewport.
pub proof fn lemma_move_keeps_cursor_visible(before: View, after: View, direction: Direction)
    requires
        View::moves(before, after, direction),
        before.viewport().width > 0,
        before.viewport().height > 0,
    ensures
        after.offset().x <= after.cursor().x < after.offset().x + after.viewport().width,
        after.offset().y <= after.cursor().y < after.offset().y + after.viewport().height,
{
    lemma_scroll_axis_contains(after.cursor().x, before.offset().x, before.viewport().width);
    lemma_scroll_axis_contains(after.cursor().y, before.offset().y, before.viewport().height);
}


/// Handling a command or loading a file that changes the text, the viewport
/// size or the scroll offset leaves the view stale, and one that leaves a stale
/// view changes nothing about that.
pub proof fn lemma_change_marks_stale(
    before: View,
    after: View,
    command: Option<EditorCommand>,
    file_contents: Option<Seq<char>>,
)
    requires
        match command {
            Some(c) => View::handles(before, after, c),
            None => View::loads(before, after, file_contents),
        },
    ensures
        after.text() != before.text() || after.viewport() != before.viewport() || after.offset()
            != before.offset() ==> after.dirty(),
        before.dirty() ==> after.dirty(),
{
}


/// Moving left from the origin leaves the cursor at the origin.
pub proof fn lemma_left_at_origin_stays(buffer: Buffer)
    ensures
        moved(buffer, Location { x: 0, y: 0 }, Direction::Left) == (Location { x: 0, y: 0 }),
{
}

/// Moving up from the first line stays on the first line.
pub proof fn lemma_up_at_top_stays(buffer: Buffer, cursor: Location)
    requires
        cursor.y == 0,
    ensures
        moved(buffer, cursor, Direction::Up).y == 0,
{
}

/// Every move lands on a line of the text or the one row just past it, and
/// within that line.
pub proof fn lemma_moved_in_bounds(buffer: Buffer, cursor: Location, direction: Direction)
    ensures
        moved(buffer, cursor, direction).y <= buffer.lines@.len(),
        moved(buffer, cursor, direction).x <= buffer.line_length(
            moved(buffer, cursor, direction).y as int,
        ),
{
}

/// Moving right from the end of the last line goes to the start of the row
/// just past the text.
pub proof fn lemma_right_at_end_of_last_line(buffer: Buffer, cursor: Location)
    requires
        buffer.lines@.len() <= usize::MAX,
        cursor.y + 1 == buffer.lines@.len(),
        cursor.x == buffer.line_length(cursor.y as int),
    ensures
        moved(buffer, cursor, Direction::Right) == (Location { x: 0, y: buffer.lines@.len() as usize }),
{
}

/// A viewport row past the end of a non-empty text shows the filler glyph.
pub proof fn lemma_row_past_text_is_filler(view: View, r: usize)
    requires
        view.text().lines@.len() > 0,
        sat_add(r, view.offset().y) >= view.text().lines@.len(),
    ensures
        view.row_text(r) == seq!['~'],
{
}

} // verus!
