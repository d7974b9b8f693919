//! The editor as a whole: the document view with a status line and a message
//! line below it. It takes events and says what is to be put on screen and
//! what is to be written to disk; reading events, painting and writing are
//! up to the caller.

use crate::buffer::{document_text, FileWrite};
use crate::documentstatus::{decimal, push_decimal};
use crate::editorcommand::{command_for, EditorCommand, Event};
use crate::fileinfo::NO_NAME;
use crate::messagebar::MessageBar;
use crate::position::{Position, Size};
use crate::statusbar::{status_text, StatusBar};
use crate::unicode::views_of;
use crate::view::{View, ViewState, NAME};
use vstd::prelude::*;
use vstd::view::View as _;

verus! {

/// How often in a row the user has to ask before an editor with unsaved
/// changes quits.
pub const QUIT_TIMES: u8 = 3;

/// Shown when the editor starts.
pub const HELP_MESSAGE: &'static str = "HELP: Ctrl-S = save | Ctrl-Q = quit";

/// Shown after the document was written.
pub const SAVED_MESSAGE: &'static str = "File saved successfully.";

/// Shown where the document could not be written.
pub const SAVE_FAILED_MESSAGE: &'static str = "Error writing file!";

/// The size of the document view in a terminal of the size `terminal`: all
/// but the two bottom rows.
pub open spec fn view_size(terminal: Size) -> Size {
    Size {
        height: if terminal.height >= 2 {
            (terminal.height - 2) as usize
        } else {
            0
        },
        width: terminal.width,
    }
}

/// The size of a bar in a terminal of the size `terminal`: one row.
pub open spec fn bar_size(terminal: Size) -> Size {
    Size { height: 1, width: terminal.width }
}

/// Whether a request to quit is granted: the document has no unsaved changes,
/// or this is the last of `QUIT_TIMES` requests in a row.
pub open spec fn quit_granted(modified: bool, quit_times: u8) -> bool {
    !modified || quit_times == QUIT_TIMES - 1
}

/// How many more requests it takes to quit after one that was made with
/// `quit_times` requests before it.
pub open spec fn requests_left(quit_times: u8) -> nat {
    if quit_times < QUIT_TIMES - 1 {
        (QUIT_TIMES - 1 - quit_times) as nat
    } else {
        0
    }
}

/// The warning shown for a request to quit that was not granted.
pub open spec fn quit_warning(quit_times: u8) -> Seq<char> {
    "WARNING! File has unsaved changes. Press Ctrl-Q "@ + decimal(requests_left(quit_times))
        + " more times to quit."@
}

/// The title of the terminal window for a document shown under `file_name`.
pub open spec fn window_title(file_name: Seq<char>) -> Seq<char> {
    file_name + " - "@ + NAME@
}

/// Whether `event` is acted on: a key that goes down or a resize.
pub open spec fn is_processed(event: Event) -> bool {
    match event {
        Event::Key { code, modifiers, pressed } => pressed,
        Event::Resize(columns, rows) => true,
        Event::Other => false,
    }
}

/// All that can be observed of an editor.
pub struct EditorState {
    /// Whether the editor is to stop.
    pub should_quit: bool,
    /// The document view.
    pub view: ViewState,
    /// The status line.
    pub status_bar: StatusBar,
    /// The message line.
    pub message_bar: MessageBar,
    /// The title the terminal window is known to have.
    pub title: Seq<char>,
    /// The size of the terminal.
    pub terminal_size: Size,
    /// How many requests to quit in a row were not granted.
    pub quit_times: u8,
}

impl EditorState {
    /// Whether the message line shows `text` as a message put up just now.
    pub open spec fn announces(self, text: Seq<char>) -> bool {
        &&& self.message_bar.message() == text
        &&& self.message_bar.redraw_pending()
        &&& !self.message_bar.cleared()
    }

    /// Whether `after` is this state fitted into a terminal of the size
    /// `size`: the document view has all but the two bottom rows, the bars
    /// one row each, and all of the screen is out of date.
    pub open spec fn fitted(self, after: EditorState, size: Size) -> bool {
        &&& after == (EditorState {
            terminal_size: size,
            view: self.view.resized(view_size(size)),
            status_bar: after.status_bar,
            message_bar: after.message_bar,
            ..self
        })
        &&& after.status_bar.extent() == bar_size(size)
        &&& after.status_bar.status() == self.status_bar.status()
        &&& after.status_bar.redraw_pending()
        &&& after.message_bar.message() == self.message_bar.message()
        &&& after.message_bar.cleared() == self.message_bar.cleared()
        &&& after.message_bar.redraw_pending()
    }

    /// Whether `after` is this state with the status line brought up to date
    /// with the document: it shows the number of lines, the cursor's line,
    /// whether the document was changed and the name it is shown under, and
    /// it is out of date on screen if any of that is new.
    pub open spec fn status_updated(self, after: EditorState) -> bool {
        let shown = after.status_bar.status();
        &&& after == (EditorState { status_bar: after.status_bar, ..self })
        &&& after.status_bar.extent() == self.status_bar.extent()
        &&& shown.total_lines == self.view.document.len()
        &&& shown.current_line_index == self.view.location.line_index
        &&& shown.is_modified == self.view.modified
        &&& self.view.path is None ==> shown.file_name@ == NO_NAME@
        &&& after.status_bar.redraw_pending() == (self.status_bar.redraw_pending()
            || !shown.same_as(&self.status_bar.status()))
    }

    /// Whether `after` is this state after a request to quit. A request that
    /// is granted stops the editor. One that is not is counted, and the
    /// message line warns of the unsaved changes.
    pub open spec fn quit_asked(self, after: EditorState) -> bool {
        let granted = quit_granted(self.view.modified, self.quit_times);
        &&& after == (EditorState {
            should_quit: self.should_quit || granted,
            quit_times: if granted {
                self.quit_times
            } else if self.quit_times < u8::MAX {
                (self.quit_times + 1) as u8
            } else {
                u8::MAX
            },
            message_bar: after.message_bar,
            ..self
        })
        &&& granted ==> after.message_bar == self.message_bar
        &&& !granted ==> after.announces(quit_warning(self.quit_times))
    }

    /// Whether `after` is this state with the requests to quit forgotten: the
    /// count is back at zero, and if it was not there before, the message
    /// line is blank.
    pub open spec fn quit_forgotten(self, after: EditorState) -> bool {
        &&& after == (EditorState { quit_times: 0, message_bar: after.message_bar, ..self })
        &&& self.quit_times == 0 ==> after.message_bar == self.message_bar
        &&& self.quit_times > 0 ==> after.announces(Seq::empty())
    }

    /// Whether `after` is this state after it was told how the writing of
    /// the document went: once written the document counts as unchanged, and
    /// either way the message line tells.
    pub open spec fn save_reported(self, after: EditorState, written: bool) -> bool {
        &&& after == (EditorState {
            view: ViewState { modified: self.view.modified && !written, ..self.view },
            message_bar: after.message_bar,
            ..self
        })
        &&& after.announces(
            if written {
                SAVED_MESSAGE@
            } else {
                SAVE_FAILED_MESSAGE@
            },
        )
    }

    /// Whether `after` and `request` are what `command` makes of this state.
    /// A request to quit and a resize are dealt with as `quit_asked` and
    /// `fitted` say. Every other command makes the requests to quit
    /// forgotten. Saving then asks the caller to write the document, or
    /// reports a failure where the document has no file; all other commands
    /// go to the document view.
    pub open spec fn commanded(
        self,
        after: EditorState,
        command: EditorCommand,
        request: Option<FileWrite>,
    ) -> bool {
        match command {
            EditorCommand::Quit => self.quit_asked(after) && request is None,
            EditorCommand::Resize(size) => self.fitted(after, size) && request is None,
            EditorCommand::Save => if self.view.path is Some {
                &&& self.quit_forgotten(after)
                &&& request is Some
                &&& request.unwrap().path@ == self.view.path.unwrap()
                &&& request.unwrap().contents@ == document_text(self.view.document)
            } else {
                &&& after == (EditorState {
                    quit_times: 0,
                    message_bar: after.message_bar,
                    ..self
                })
                &&& after.announces(SAVE_FAILED_MESSAGE@)
                &&& request is None
            },
            _ => {
                &&& self.quit_forgotten(EditorState { view: self.view, ..after })
                &&& after.view == self.view.after(command)
                &&& request is None
            },
        }
    }

    /// Whether `after` and `frame` are what a refresh of the screen makes of
    /// this state. A terminal without cells gets no frame. Otherwise each
    /// part that has a row of its own and is out of date is handed out and
    /// counts as up to date afterwards: the message line on the bottom row,
    /// the status line on the row above it, the document view above that.
    pub open spec fn refreshed(self, after: EditorState, frame: Option<Frame>) -> bool {
        let height = self.terminal_size.height;
        if height == 0 || self.terminal_size.width == 0 {
            after == self && frame is None
        } else {
            &&& frame is Some
            &&& after == (EditorState {
                view: after.view,
                status_bar: after.status_bar,
                message_bar: after.message_bar,
                ..self
            })
            &&& frame.unwrap().caret == self.view.position().spec_saturating_sub(self.view.scroll)
            &&& after.message_bar.message() == self.message_bar.message()
            &&& !after.message_bar.redraw_pending()
            &&& self.message_bar.redraw_pending() ==> frame.unwrap().message is Some
            &&& frame.unwrap().message matches Some(painted) ==> {
                &&& painted.row == height - 1
                &&& painted.text@ == Seq::<char>::empty() || painted.text@
                    == self.message_bar.message()
            }
            &&& if height > 1 {
                &&& after.status_bar.status() == self.status_bar.status()
                &&& after.status_bar.extent() == self.status_bar.extent()
                &&& !after.status_bar.redraw_pending()
                &&& frame.unwrap().status is Some == self.status_bar.redraw_pending()
                &&& frame.unwrap().status matches Some(painted) ==> {
                    &&& painted.row == height - 2
                    &&& painted.text@ == status_text(
                        self.status_bar.status(),
                        self.status_bar.extent().width,
                    )
                }
            } else {
                after.status_bar == self.status_bar && frame.unwrap().status is None
            }
            &&& if height > 2 {
                &&& views_of(frame.unwrap().view@) == self.view.rendering()
                &&& after.view == (ViewState {
                    needs_redraw: self.view.needs_redraw && !self.view.paints(),
                    ..self.view
                })
            } else {
                after.view == self.view && frame.unwrap().view@.len() == 0
            }
        }
    }
}

/// A row of the terminal and the text to put on it.
#[derive(Debug)]
pub struct RowText {
    pub row: usize,
    pub text: String,
}

/// What is to be put on screen. A part that is `None`, or has no rows, stays
/// as it is.
#[derive(Debug)]
pub struct Frame {
    /// The message line.
    pub message: Option<RowText>,
    /// The status line.
    pub status: Option<RowText>,
    /// The rows of the document view, from the top row of the terminal down.
    pub view: Vec<String>,
    /// Where the cursor goes.
    pub caret: Position,
}

/// The document view with its status line and message line.
pub struct Editor {
    should_quit: bool,
    view: View,
    status_bar: StatusBar,
    title: String,
    message_bar: MessageBar,
    terminal_size: Size,
    quit_times: u8,
}

impl vstd::view::View for Editor {
    type V = EditorState;

    /// All that can be observed of the editor.
    closed spec fn view(&self) -> EditorState {
        EditorState {
            should_quit: self.should_quit,
            view: self.view@,
            status_bar: self.status_bar,
            message_bar: self.message_bar,
            title: self.title@,
            terminal_size: self.terminal_size,
            quit_times: self.quit_times,
        }
    }
}

impl Editor {
    /// An editor of the empty document in a terminal of the size `size`. It
    /// shows `HELP_MESSAGE`.
    pub fn new(size: Size) -> (editor: Editor)
        ensures
            !editor@.should_quit,
            editor@.quit_times == 0,
            editor@.terminal_size == size,
            editor@.title == Seq::<char>::empty(),
            editor@.view == ViewState::fresh(view_size(size)).resized(view_size(size)),
            editor@.status_bar.extent() == bar_size(size),
            editor@.status_bar.redraw_pending(),
            editor@.status_bar.status().total_lines == 0,
            editor@.status_bar.status().current_line_index == 0,
            !editor@.status_bar.status().is_modified,
            editor@.status_bar.status().file_name@ == Seq::<char>::empty(),
            editor@.announces(HELP_MESSAGE@),
    {
        let mut editor = Editor {
            should_quit: false,
            view: View::new(size, 2),
            status_bar: StatusBar::default(),
            title: String::new(),
            message_bar: MessageBar::default(),
            terminal_size: Size::default(),
            quit_times: 0,
        };
        editor.resize(size);
        editor.message_bar.update_message(HELP_MESSAGE);
        editor
    }

    /// Whether the editor is to stop.
    pub fn should_quit(&self) -> (quit: bool)
        ensures
            quit == self@.should_quit,
    {
        self.should_quit
    }

    /// The document view.
    pub fn document_view(&self) -> (view: &View)
        ensures
            view@ == self@.view,
    {
        &self.view
    }

    /// How many requests to quit in a row were not granted.
    pub fn quit_times(&self) -> (count: u8)
        ensures
            count == self@.quit_times,
    {
        self.quit_times
    }

    /// Takes `contents`, the text of the file `file_name`, as the document.
    pub fn load(&mut self, file_name: &str, contents: &str)
        ensures
            final(self)@ == (EditorState { view: final(self)@.view, ..old(self)@ }),
            final(self)@.view == old(self)@.view.loaded(file_name@, contents@),
    {
        self.view.load(file_name, contents);
    }

    /// Fits the editor into a terminal of the size `size`: the document view
    /// gets all but the two bottom rows, the bars one row each. All of the
    /// screen is out of date afterwards.
    pub fn resize(&mut self, size: Size)
        ensures
            old(self)@.fitted(final(self)@, size),
    {
        self.terminal_size = size;
        self.view.resize(Size { height: size.height.saturating_sub(2), width: size.width });
        self.message_bar.resize(Size { height: 1, width: size.width });
        self.status_bar.resize(Size { height: 1, width: size.width });
    }

    /// Brings the status line up to date with the document.
    pub fn update_status(&mut self)
        ensures
            old(self)@.status_updated(final(self)@),
    {
        let status = self.view.get_status();
        self.status_bar.update_status(status);
    }

    /// Brings the status line up to date with the document and hands out the
    /// title the terminal window is to get, if that is not the title it is
    /// known to have: the name the document is shown under, a dash and the
    /// name of the editor.
    pub fn refresh_status(&mut self) -> (title: Option<String>)
        ensures
            old(self)@.status_updated(final(self)@),
            title is Some == (window_title(final(self)@.status_bar.status().file_name@)
                != old(self)@.title),
            title is Some ==> title.unwrap()@ == window_title(
                final(self)@.status_bar.status().file_name@,
            ),
    {
        let status = self.view.get_status();
        let mut title = status.file_name.clone();
        title.append(" - ");
        title.append(NAME);
        self.status_bar.update_status(status);
        if title != self.title {
            Some(title)
        } else {
            None
        }
    }

    /// Records that the terminal window has got the title `title`.
    pub fn set_title(&mut self, title: String)
        ensures
            final(self)@ == (EditorState { title: title@, ..old(self)@ }),
    {
        self.title = title;
    }

    /// Deals with a request to quit.
    fn handle_quit(&mut self)
        ensures
            old(self)@.quit_asked(final(self)@),
    {
        let is_modified = self.view.get_status().is_modified;
        if !is_modified || self.quit_times == QUIT_TIMES - 1 {
            self.should_quit = true;
        } else {
            let left: u8 = if self.quit_times < QUIT_TIMES - 1 {
                QUIT_TIMES - 1 - self.quit_times
            } else {
                0
            };
            let mut warning = String::new();
            warning.append("WARNING! File has unsaved changes. Press Ctrl-Q ");
            push_decimal(&mut warning, left as usize);
            warning.append(" more times to quit.");
            self.message_bar.update_message(warning.as_str());
            self.quit_times = self.quit_times.saturating_add(1);
        }
    }

    /// Forgets the requests to quit that were not granted.
    fn reset_quit_times(&mut self)
        ensures
            old(self)@.quit_forgotten(final(self)@),
    {
        if self.quit_times > 0 {
            self.quit_times = 0;
            self.message_bar.update_message("");
            proof {
                reveal_strlit("");
                assert(""@ =~= Seq::<char>::empty());
            }
        }
    }

    /// Records how the writing of the document went: once written it counts
    /// as unchanged. Either way the message line tells.
    pub fn handle_save(&mut self, written: bool)
        ensures
            old(self)@.save_reported(final(self)@, written),
    {
        if written {
            self.view.mark_saved();
            self.message_bar.update_message(SAVED_MESSAGE);
        } else {
            self.message_bar.update_message(SAVE_FAILED_MESSAGE);
        }
    }

    /// Carries out `command` and hands out what the caller is to write to
    /// disk for it, if anything. How the writing went is to be reported to
    /// `handle_save`.
    pub fn process_command(&mut self, command: EditorCommand) -> (request: Option<FileWrite>)
        ensures
            old(self)@.commanded(final(self)@, command, request),
    {
        match command {
            EditorCommand::Quit => {
                self.handle_quit();
                None
            },
            EditorCommand::Resize(size) => {
                self.resize(size);
                None
            },
            EditorCommand::Save => {
                self.reset_quit_times();
                let request = self.view.save_request();
                if request.is_none() {
                    self.handle_save(false);
                }
                request
            },
            _ => {
                self.reset_quit_times();
                self.view.handle_command(command);
                None
            },
        }
    }

    /// Acts on `event` if it is a key that goes down or a resize, and does
    /// nothing otherwise. Hands out what the caller is to write to disk, if
    /// anything.
    pub fn evaluate_event(&mut self, event: Event) -> (request: Option<FileWrite>)
        ensures
            is_processed(event) ==> old(self)@.commanded(
                final(self)@,
                command_for(event).unwrap(),
                request,
            ),
            !is_processed(event) ==> final(self)@ == old(self)@ && request is None,
    {
        let should_process = match event {
            Event::Key { code, modifiers, pressed } => pressed,
            Event::Resize(columns, rows) => true,
            Event::Other => false,
        };
        if should_process {
            match EditorCommand::try_from(event) {
                Ok(command) => self.process_command(command),
                Err(_) => None,
            }
        } else {
            None
        }
    }

    /// Hands out what is to be put on screen to bring it up to date.
    pub fn refresh_screen(&mut self) -> (frame: Option<Frame>)
        ensures
            old(self)@.refreshed(final(self)@, frame),
    {
        let height = self.terminal_size.height;
        if height == 0 || self.terminal_size.width == 0 {
            return None;
        }
        let message = match self.message_bar.render() {
            Some(text) => Some(RowText { row: height - 1, text }),
            None => None,
        };
        let mut status = None;
        if height > 1 {
            status = match self.status_bar.render() {
                Some(text) => Some(RowText { row: height - 2, text }),
                None => None,
            };
        }
        let mut view: Vec<String> = Vec::new();
        if height > 2 {
            view = self.view.render();
        }
        Some(Frame { message, status, view, caret: self.view.caret_position() })
    }
}

/// The count of requests to quit that were not granted stays below
/// `QUIT_TIMES`, whatever the command.
pub proof fn lemma_quit_times_stay_below_the_limit(
    before: EditorState,
    after: EditorState,
    command: EditorCommand,
    request: Option<FileWrite>,
)
    requires
        before.commanded(after, command, request),
        before.quit_times < QUIT_TIMES,
    ensures
        after.quit_times < QUIT_TIMES,
{
}

} // verus!
