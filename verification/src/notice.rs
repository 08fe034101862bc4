//! What the program shows to its user in place of copying a path.

use vstd::prelude::*;
use vstd::string::StringExecFns;

verus! {

/// An informational dialog with one button: a title and a text. The library
/// only says what is in it; putting it on the screen is the caller's part,
/// and a caller without dialogs drops it.
#[derive(Debug, PartialEq, Eq)]
pub struct MessageBox {
    /// The caption of the dialog.
    pub title: String,
    /// The text inside it.
    pub message: String,
}

/// A [`MessageBox`] as characters.
pub struct MessageBoxView {
    pub title: Seq<char>,
    pub message: Seq<char>,
}

impl View for MessageBox {
    type V = MessageBoxView;

    open spec fn view(&self) -> MessageBoxView {
        MessageBoxView { title: self.title@, message: self.message@ }
    }
}

/// Makes the dialog that shows `message` under `title`.
pub fn show_message_box(title: &str, message: &str) -> (shown: MessageBox)
    ensures
        shown@ == (MessageBoxView { title: title@, message: message@ }),
{
    MessageBox { title: String::from_str(title), message: String::from_str(message) }
}

} // verus!
