//! The text of the one open document.

use vstd::prelude::*;

verus! {

/// The whole text of the document, with no history: an edit or a load puts a
/// new text in the place of the old one.
#[derive(Debug)]
pub struct DocumentBuffer {
    text: String,
}

impl View for DocumentBuffer {
    type V = Seq<char>;

    closed spec fn view(&self) -> Seq<char> {
        self.text@
    }
}

impl DocumentBuffer {
    /// An empty document.
    pub fn new() -> (buffer: Self)
        ensures
            buffer@ == Seq::<char>::empty(),
    {
        DocumentBuffer { text: String::new() }
    }

    /// The text.
    pub fn get(&self) -> (text: &str)
        ensures
            text@ == self@,
    {
        self.text.as_str()
    }

    /// Puts `new_text` in the place of the text, whatever it holds.
    pub fn replace(&mut self, new_text: String)
        ensures
            final(self)@ == new_text@,
        no_unwind
    {
        self.text = new_text;
    }

    /// Whether the document holds no character.
    pub fn is_empty(&self) -> (empty: bool)
        ensures
            empty == (self@.len() == 0),
    {
        self.text.as_str().is_empty()
    }

    /// A copy of the text, as handed to whoever writes it out.
    pub fn to_owned_text(&self) -> (text: String)
        ensures
            text@ == self@,
    {
        self.text.clone()
    }
}

} // verus!
