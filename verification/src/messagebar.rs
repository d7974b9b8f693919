//! The message line: a short text that is shown for a few seconds.

use crate::position::Size;
use std::time::Instant;
use vstd::prelude::*;

verus! {

/// How long a message is shown, in nanoseconds: five seconds.
pub const DEFAULT_DURATION: u128 = 5_000_000_000;

/// A point in time, as `std::time::Instant` holds it. Nothing of it is known
/// here.
#[verifier::external_type_specification]
#[verifier::external_body]
pub struct ExInstant(Instant);

/// Calls `Instant::now`: the present moment.
#[verifier::external_body]
fn now() -> (time: Instant) {
    Instant::now()
}

/// Calls `Instant::elapsed` and hands out the nanoseconds gone by since
/// `since`. The answer depends on when it is asked for, so nothing is claimed
/// of it.
#[verifier::external_body]
fn nanoseconds_since(since: &Instant) -> (elapsed: u128) {
    since.elapsed().as_nanos()
}

/// A text and the moment it was put up.
struct Message {
    text: String,
    time: Instant,
}

impl Message {
    /// The message `text`, put up now.
    fn new(text: String) -> (message: Message)
        ensures
            message.text@ == text@,
    {
        Message { text, time: now() }
    }

    /// Whether the message has been up for longer than `DEFAULT_DURATION`.
    fn is_expired(&self) -> bool {
        expired_after(nanoseconds_since(&self.time))
    }
}

/// Whether a message that has been up for `elapsed` nanoseconds has run out:
/// it has once it was up for longer than `DEFAULT_DURATION`.
pub open spec fn has_run_out(elapsed: u128) -> bool {
    elapsed > DEFAULT_DURATION
}

/// Whether a message that has been up for `elapsed` nanoseconds has run out.
pub fn expired_after(elapsed: u128) -> (expired: bool)
    ensures
        expired == has_run_out(elapsed),
{
    elapsed > DEFAULT_DURATION
}

/// Whether the message line on screen is out of date: it was marked so, or
/// its message has run out and was not yet wiped off the screen.
pub open spec fn redraw_due(marked: bool, cleared_after_expiry: bool, expired: bool) -> bool {
    (!cleared_after_expiry && expired) || marked
}

/// The message line of the editor.
pub struct MessageBar {
    current_message: Message,
    needs_redraw: bool,
    cleared_after_expiry: bool,
}

impl MessageBar {
    /// The text of the message, shown until it runs out.
    pub closed spec fn message(&self) -> Seq<char> {
        self.current_message.text@
    }

    /// Whether the line on screen was marked as out of date.
    pub closed spec fn redraw_pending(&self) -> bool {
        self.needs_redraw
    }

    /// Whether the message has run out and was wiped off the screen since.
    pub closed spec fn cleared(&self) -> bool {
        self.cleared_after_expiry
    }

    /// Puts up `new_message` in place of the message there was. The line on
    /// screen is out of date afterwards.
    pub fn update_message(&mut self, new_message: &str)
        ensures
            final(self).message() == new_message@,
            final(self).redraw_pending(),
            !final(self).cleared(),
    {
        self.current_message = Message::new(new_message.to_owned());
        self.cleared_after_expiry = false;
        self.set_needs_redraw(true);
    }

    /// Marks the line on screen as out of date, or as up to date.
    pub fn set_needs_redraw(&mut self, value: bool)
        ensures
            final(self).redraw_pending() == value,
            final(self).message() == old(self).message(),
            final(self).cleared() == old(self).cleared(),
    {
        self.needs_redraw = value;
    }

    /// Whether the line on screen is out of date, given whether the message
    /// has run out.
    pub fn needs_redraw_when(&self, expired: bool) -> (needed: bool)
        ensures
            needed == redraw_due(self.redraw_pending(), self.cleared(), expired),
    {
        (!self.cleared_after_expiry && expired) || self.needs_redraw
    }

    /// Whether the line on screen is out of date. That depends on the time:
    /// the answer is the one `needs_redraw_when` gives for a message that has
    /// run out or for one that has not.
    pub fn needs_redraw(&self) -> (needed: bool)
        ensures
            needed == redraw_due(self.redraw_pending(), self.cleared(), true) || needed
                == redraw_due(self.redraw_pending(), self.cleared(), false),
    {
        self.needs_redraw_when(self.current_message.is_expired())
    }

    /// The size of the line is of no account.
    pub fn set_size(&mut self, size: Size)
        ensures
            *final(self) == *old(self),
    {
    }

    /// Marks the line as out of date.
    pub fn resize(&mut self, size: Size)
        ensures
            final(self).redraw_pending(),
            final(self).message() == old(self).message(),
            final(self).cleared() == old(self).cleared(),
    {
        self.set_size(size);
        self.set_needs_redraw(true);
    }

    /// The text the line shows, given whether the message has run out: the
    /// message, or nothing once it has run out. A message that has run out
    /// counts as wiped off the screen from then on.
    pub fn draw_when(&mut self, expired: bool) -> (text: String)
        ensures
            text@ == if expired {
                Seq::<char>::empty()
            } else {
                old(self).message()
            },
            final(self).cleared() == (old(self).cleared() || expired),
            final(self).message() == old(self).message(),
            final(self).redraw_pending() == old(self).redraw_pending(),
    {
        if expired {
            self.cleared_after_expiry = true;
            String::new()
        } else {
            self.current_message.text.clone()
        }
    }

    /// The text the line shows now: what `draw_when` gives for a message that
    /// has run out or for one that has not, as the time decides.
    pub fn draw(&mut self) -> (text: String)
        ensures
            final(self).message() == old(self).message(),
            final(self).redraw_pending() == old(self).redraw_pending(),
            (text@ == Seq::<char>::empty() && final(self).cleared()) || (text@ == old(self).message()
                && final(self).cleared() == old(self).cleared()),
    {
        let expired = self.current_message.is_expired();
        self.draw_when(expired)
    }

    /// The text to put on screen, if the line there is out of date; the line
    /// counts as up to date afterwards.
    pub fn render(&mut self) -> (text: Option<String>)
        ensures
            final(self).message() == old(self).message(),
            !final(self).redraw_pending(),
            old(self).redraw_pending() ==> text is Some,
            text is Some ==> text.unwrap()@ == Seq::<char>::empty() || text.unwrap()@ == old(self).message(),
    {
        let expired = self.current_message.is_expired();
        if self.needs_redraw_when(expired) {
            let text = self.draw_when(expired);
            self.set_needs_redraw(false);
            Some(text)
        } else {
            None
        }
    }
}

impl Default for MessageBar {
    /// A line without a message that counts as up to date.
    fn default() -> (bar: MessageBar)
        ensures
            bar.message() == Seq::<char>::empty(),
            !bar.redraw_pending(),
            !bar.cleared(),
    {
        MessageBar {
            current_message: Message::new(String::new()),
            needs_redraw: false,
            cleared_after_expiry: false,
        }
    }
}

} // verus!
