use crate::editorcommand::EditorCommand;
use crate::geometry::{sat_sub, Position};
use crate::view::View;
use vstd::prelude::*;
use vstd::view::View as _;

verus! {

/// What the terminal shows after one pass of the loop: the rows to repaint,
/// each with its index, and where the caret goes.
pub struct Frame {
    pub rows: Vec<(usize, String)>,
    pub caret: Position,
}

/// The session: the view, and whether the user asked to quit.
pub struct Editor {
    pub should_quit: bool,
    pub view: View,
}

impl Default for Editor {
    fn default() -> (r: Self)
        ensures
            !r.should_quit,
            r.view.text().lines@.len() == 0,
            r.view.dirty(),
    {
        Editor { should_quit: false, view: View::default() }
    }
}

impl Editor {
    /// Quits on `Quit`; hands every other command to the view.
    pub fn evaluate_command(&mut self, command: EditorCommand)
        ensures
            command == EditorCommand::Quit ==> final(self).should_quit && final(self).view
                == old(self).view,
            command != EditorCommand::Quit ==> final(self).should_quit == old(self).should_quit
                && View::handles(old(self).view, final(self).view, command),
    {
        match command {
            EditorCommand::Quit => {
                self.should_quit = true;
            },
            _ => {
                self.view.handle_command(command);
            },
        }
    }

    /// Renders the view and places the caret at the cursor's screen position.
    pub fn refresh_screen(&mut self) -> (frame: Frame)
        ensures
            final(self).should_quit == old(self).should_quit,
            View::renders(old(self).view, final(self).view, frame.rows@),
            frame.caret.col == sat_sub(final(self).view.cursor().x, final(self).view.offset().x),
            frame.caret.row == sat_sub(final(self).view.cursor().y, final(self).view.offset().y),
    {
        let rows = self.view.render();
        let caret = self.view.get_position();
        Frame { rows, caret }
    }
}

} // verus!
