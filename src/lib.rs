//! A terminal text viewport: lines split into grapheme clusters, a cursor and a
//! scroll window over them, and a renderer that repaints only when needed.
mod buffer;
mod editor;
mod editorcommand;
mod geometry;
mod line;
mod view;

pub use buffer::{lines_of, Buffer};
pub use editor::{Editor, Frame};
pub use editorcommand::{Direction, EditorCommand};
pub use geometry::{sat_add, sat_sub, Location, Position, Size};
pub use line::{
    graphemes_of, joined, lemma_joined_append, lemma_slice_text_split, replacement_for, shown,
    width_class, width_of, GraphemeWidth, Line,
};
pub use view::{
    banner, lemma_change_marks_stale, lemma_failed_load_keeps_text, lemma_left_at_origin_stays,
    lemma_move_keeps_cursor_visible, lemma_moved_in_bounds, lemma_render_twice,
    lemma_right_at_end_of_last_line, lemma_row_past_text_is_filler, lemma_scroll_axis_contains,
    lemma_up_at_top_stays, moved, scroll_axis, scrolled, welcome_text, View, PRODUCT, VERSION,
};
