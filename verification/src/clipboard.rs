//! A clipboard that lives as long as the program.

use vstd::prelude::*;

verus! {

/// A clipboard without a window system behind it.
#[derive(Debug)]
pub struct MemoryClipboard {
    text: String,
}

impl View for MemoryClipboard {
    type V = Seq<char>;

    closed spec fn view(&self) -> Seq<char> {
        self.text@
    }
}

/// What a clipboard that held `contents` holds once `string` has been put on it.
pub open spec fn after_set(contents: Seq<char>, string: Seq<char>) -> Seq<char> {
    string
}

/// What a clipboard that holds `text` gives back: an empty text counts as none.
pub open spec fn clipping(text: Seq<char>) -> Option<Seq<char>> {
    if text.len() == 0 {
        None
    } else {
        Some(text)
    }
}

impl MemoryClipboard {
    /// An empty clipboard.
    pub fn new() -> (clipboard: MemoryClipboard)
        ensures
            clipboard@ == Seq::<char>::empty(),
    {
        MemoryClipboard { text: String::new() }
    }

    /// The text on the clipboard.
    pub fn get(&self) -> (text: Option<String>)
        ensures
            match text {
                Some(text) => clipping(self@) == Some(text@),
                None => clipping(self@) is None,
            },
            text is None <==> self@.len() == 0,
            text matches Some(t) ==> t@ == self@,
    {
        if self.text.as_str().unicode_len() == 0 {
            None
        } else {
            Some(self.text.clone())
        }
    }

    /// Puts a text on the clipboard.
    pub fn set(&mut self, string: &str)
        ensures
            final(self)@ == after_set(old(self)@, string@),
            final(self)@ == string@,
    {
        self.text = string.to_owned();
    }
}

/// What was put on the clipboard last can be taken from it again, unless it was empty, and
/// whatever was on the clipboard before.
pub proof fn law_get_after_set(contents: Seq<char>, string: Seq<char>)
    ensures
        string.len() > 0 ==> clipping(after_set(contents, string)) == Some(string),
        string.len() == 0 ==> clipping(after_set(contents, string)) is None,
{
}

/// What was on the clipboard before makes no difference to what is on it afterwards.
pub proof fn law_the_last_text_counts(contents: Seq<char>, first: Seq<char>, second: Seq<char>)
    ensures
        after_set(after_set(contents, first), second) == second,
{
}

} // verus!
