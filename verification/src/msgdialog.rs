//!
//! State of a basic status dialog for longer messages.
//!
use crate::geometry::Rect;
use crate::text::{push_char, push_str};
use vstd::prelude::*;

verus! {

/// State of the message dialog.
#[derive(Debug, Clone)]
pub struct MsgDialogState {
    /// Full area.
    /// __readonly__. renewed for each render.
    pub area: Rect,
    /// Area inside the borders.
    /// __readonly__. renewed for each render.
    pub inner: Rect,
    /// Dialog is active.
    /// __read+write__
    pub active: bool,
    /// Dialog title
    /// __read+write__
    pub message_title: String,
    /// Dialog text.
    /// __read+write__
    pub message: String,
}

/// The message after appending `msg`: on a new line if there is a
/// message already.
pub open spec fn appended(message: Seq<char>, msg: Seq<char>) -> Seq<char> {
    if message.len() == 0 {
        msg
    } else {
        message.push('\n') + msg
    }
}

impl MsgDialogState {
    /// Inactive, without title and message.
    pub fn new() -> (r: Self)
        ensures
            r.area == Rect::zero(),
            r.inner == Rect::zero(),
            !r.active,
            r.message_title@ == Seq::<char>::empty(),
            r.message@ == Seq::<char>::empty(),
    {
        let z = Rect { x: 0, y: 0, width: 0, height: 0 };
        MsgDialogState {
            area: z,
            inner: z,
            active: false,
            message_title: String::new(),
            message: String::new(),
        }
    }

    /// New dialog with active-flag set.
    pub fn new_active(title: &str, msg: &str) -> (r: Self)
        ensures
            r.active,
            r.message_title@ == title@,
            r.message@ == msg@,
    {
        let mut zelf = Self::new();
        zelf.set_active(true);
        zelf.title(title);
        zelf.append(msg);
        zelf
    }

    /// Show the dialog.
    pub fn set_active(&mut self, active: bool)
        ensures
            final(self).active == active,
            final(self).message_title@ == old(self).message_title@,
            final(self).message@ == old(self).message@,
    {
        self.active = active;
    }

    /// Dialog is active.
    pub fn active(&self) -> (r: bool)
        ensures
            r == self.active,
    {
        self.active
    }

    /// Clear message text, set active to false.
    pub fn clear(&mut self)
        ensures
            !final(self).active,
            final(self).message_title@ == old(self).message_title@,
            final(self).message@ == Seq::<char>::empty(),
    {
        self.active = false;
        self.message = String::new();
    }

    /// Set the title for the message.
    pub fn title(&mut self, title: &str)
        ensures
            final(self).active == old(self).active,
            final(self).message_title@ == title@,
            final(self).message@ == old(self).message@,
    {
        self.message_title = title.to_owned();
    }

    /// *Append* to the message, on a new line, and show the dialog.
    pub fn append(&mut self, msg: &str)
        ensures
            final(self).active,
            final(self).message_title@ == old(self).message_title@,
            final(self).message@ == appended(old(self).message@, msg@),
    {
        self.set_active(true);
        if !self.message.as_str().is_empty() {
            push_char(&mut self.message, '\n');
        }
        push_str(&mut self.message, msg);
    }
}

} // verus!
