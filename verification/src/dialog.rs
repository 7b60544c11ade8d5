//! A dialog with a title and a text, which is open or closed.

use vstd::prelude::*;

verus! {

/// What a dialog tells its listeners.
#[derive(Debug, Clone, Copy, PartialEq, Eq, Structural)]
pub enum DialogEvent {
    Closed,
    Accepted,
}

pub struct SimpleDialog {
    title: String,
    content: String,
    is_open: bool,
}

/// What a dialog is, as a mathematical value.
pub struct SimpleDialogView {
    pub title: Seq<char>,
    pub content: Seq<char>,
    pub is_open: bool,
}

impl View for SimpleDialog {
    type V = SimpleDialogView;

    closed spec fn view(&self) -> SimpleDialogView {
        SimpleDialogView { title: self.title@, content: self.content@, is_open: self.is_open }
    }
}

impl SimpleDialog {
    /// A closed dialog.
    pub fn new(title: String, content: String) -> (dialog: Self)
        ensures
            dialog@ == (SimpleDialogView { title: title@, content: content@, is_open: false }),
    {
        Self { title, content, is_open: false }
    }

    /// Opens the dialog.
    pub fn open(&mut self)
        ensures
            final(self)@ == (SimpleDialogView { is_open: true, ..old(self)@ }),
    {
        self.is_open = true;
    }

    /// Closes the dialog, and returns what its listeners are told: that it
    /// was closed.
    pub fn close(&mut self) -> (event: DialogEvent)
        ensures
            event == DialogEvent::Closed,
            final(self)@ == (SimpleDialogView { is_open: false, ..old(self)@ }),
    {
        self.is_open = false;
        DialogEvent::Closed
    }

    pub fn is_open(&self) -> (open: bool)
        ensures
            open == self@.is_open,
    {
        self.is_open
    }

    pub fn title(&self) -> (title: &String)
        ensures
            title@ == self@.title,
    {
        &self.title
    }

    pub fn content(&self) -> (content: &String)
        ensures
            content@ == self@.content,
    {
        &self.content
    }
}

} // verus!
