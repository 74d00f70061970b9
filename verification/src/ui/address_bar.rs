//! The address bar: a line of text with a cursor, edited key by key.
//!
//! Positions count characters, not bytes: the cursor stands before the
//! character with its index, or behind the last one.

use crate::text::{from_chars, to_chars};
use vstd::prelude::*;

verus! {

/// What the address bar asks the browser to do.
#[derive(Debug)]
pub enum AddressBarAction {
    /// Navigate to the URL written as the text held here.
    Navigate(String),
}

/// A key, as far as the address bar tells keys apart.
#[derive(Debug, Clone, Copy, PartialEq, Eq, Structural)]
pub enum KeyInput {
    Enter,
    Backspace,
    Delete,
    ArrowLeft,
    ArrowRight,
    Home,
    End,
    /// A key that writes text; the text comes with it.
    Character,
    /// Any other key.
    Other,
}

/// The contents of an [`AddressBar`].
pub struct AddressBarView {
    pub url: Seq<char>,
    pub is_focused: bool,
    /// How many characters stand before the cursor.
    pub cursor: int,
}

impl AddressBarView {
    /// The cursor stands within the text or at its end.
    pub open spec fn well_formed(self) -> bool {
        0 <= self.cursor <= self.url.len()
    }

    /// The bar after `key` was pressed; `text` is what the key writes, for
    /// a key that writes.
    pub open spec fn after_key(self, key: KeyInput, text: Option<Seq<char>>) -> AddressBarView {
        match key {
            KeyInput::Backspace => if self.cursor > 0 {
                AddressBarView {
                    url: self.url.remove(self.cursor - 1),
                    cursor: self.cursor - 1,
                    ..self
                }
            } else {
                self
            },
            KeyInput::Delete => if self.cursor < self.url.len() {
                AddressBarView { url: self.url.remove(self.cursor), ..self }
            } else {
                self
            },
            KeyInput::ArrowLeft => if self.cursor > 0 {
                AddressBarView { cursor: self.cursor - 1, ..self }
            } else {
                self
            },
            KeyInput::ArrowRight => if self.cursor < self.url.len() {
                AddressBarView { cursor: self.cursor + 1, ..self }
            } else {
                self
            },
            KeyInput::Home => AddressBarView { cursor: 0, ..self },
            KeyInput::End => AddressBarView { cursor: self.url.len() as int, ..self },
            KeyInput::Character => match text {
                Some(t) => AddressBarView {
                    url: self.url.subrange(0, self.cursor) + t + self.url.subrange(
                        self.cursor,
                        self.url.len() as int,
                    ),
                    cursor: self.cursor + t.len(),
                    ..self
                },
                None => self,
            },
            KeyInput::Enter | KeyInput::Other => self,
        }
    }

    /// What is shown: the text, with a bar behind it while the address bar
    /// has the focus.
    pub open spec fn display_text(self) -> Seq<char> {
        if self.is_focused {
            self.url + "|"@
        } else {
            self.url
        }
    }
}

/// The line in which the user writes the URL.
pub struct AddressBar {
    url: String,
    is_focused: bool,
    cursor_position: usize,
}

impl View for AddressBar {
    type V = AddressBarView;

    closed spec fn view(&self) -> AddressBarView {
        AddressBarView {
            url: self.url@,
            is_focused: self.is_focused,
            cursor: self.cursor_position as int,
        }
    }
}

impl AddressBar {
    #[verifier::type_invariant]
    spec fn inv(self) -> bool {
        self@.well_formed()
    }

    /// A focused address bar that holds the example URL, with the cursor at
    /// the start.
    pub fn new() -> (bar: Self)
        ensures
            bar@ == (AddressBarView { url: "https://example.com"@, is_focused: true, cursor: 0 }),
    {
        AddressBar {
            url: String::from_str("https://example.com"),
            is_focused: true,
            cursor_position: 0,
        }
    }

    /// The text in the bar.
    pub fn url(&self) -> (url: &str)
        ensures
            url@ == self@.url,
    {
        self.url.as_str()
    }

    /// Replaces the text and puts the cursor behind it.
    pub fn set_url(&mut self, url: String)
        ensures
            final(self)@ == (AddressBarView {
                url: url@,
                cursor: url@.len() as int,
                ..old(self)@
            }),
    {
        let len = url.as_str().unicode_len();
        self.cursor_position = 0;
        self.url = url;
        self.cursor_position = len;
    }

    /// Whether the bar has the focus.
    pub fn is_focused(&self) -> (focused: bool)
        ensures
            focused == self@.is_focused,
    {
        self.is_focused
    }

    /// Gives the bar the focus, or takes it away.
    pub fn set_focused(&mut self, focused: bool)
        ensures
            final(self)@ == (AddressBarView { is_focused: focused, ..old(self)@ }),
    {
        proof {
            use_type_invariant(&*self);
        }
        self.is_focused = focused;
    }

    /// How many characters stand before the cursor. Never more than the
    /// text has.
    pub fn cursor_position(&self) -> (cursor: usize)
        ensures
            cursor == self@.cursor,
            cursor <= self@.url.len(),
    {
        proof {
            use_type_invariant(self);
        }
        self.cursor_position
    }

    /// Puts `chars` in the place of the text, with the cursor at `cursor`.
    fn replace_text(&mut self, chars: &Vec<char>, cursor: usize)
        requires
            cursor <= chars.len(),
        ensures
            final(self)@ == (AddressBarView {
                url: chars@,
                cursor: cursor as int,
                ..old(self)@
            }),
    {
        let text = from_chars(chars, 0, chars.len());
        assert(chars@.subrange(0, chars.len() as int) == chars@);
        self.cursor_position = 0;
        self.url = text;
        self.cursor_position = cursor;
    }

    /// Handles one key. `Enter` asks for navigation to the text in the bar
    /// and changes nothing; every other key edits the text or moves the
    /// cursor, as [`AddressBarView::after_key`] says, and asks for nothing.
    pub fn handle_key(&mut self, key: &KeyInput, text: Option<&str>) -> (action: Option<
        AddressBarAction,
    >)
        ensures
            final(self)@ == old(self)@.after_key(
                *key,
                match text {
                    Some(t) => Some(t@),
                    None => None,
                },
            ),
            final(self)@.well_formed(),
            match action {
                Some(AddressBarAction::Navigate(target)) => *key == KeyInput::Enter && target@
                    == old(self)@.url,
                None => *key != KeyInput::Enter,
            },
    {
        proof {
            use_type_invariant(&*self);
        }
        let cursor = self.cursor_position;
        match key {
            KeyInput::Enter => {
                return Some(AddressBarAction::Navigate(self.url.clone()));
            },
            KeyInput::Backspace => {
                if cursor > 0 {
                    let mut chars = to_chars(self.url.as_str());
                    chars.remove(cursor - 1);
                    self.replace_text(&chars, cursor - 1);
                }
            },
            KeyInput::Delete => {
                let mut chars = to_chars(self.url.as_str());
                if cursor < chars.len() {
                    chars.remove(cursor);
                    self.replace_text(&chars, cursor);
                }
            },
            KeyInput::ArrowLeft => {
                if cursor > 0 {
                    self.cursor_position = cursor - 1;
                }
            },
            KeyInput::ArrowRight => {
                if cursor < self.url.as_str().unicode_len() {
                    self.cursor_position = cursor + 1;
                }
            },
            KeyInput::Home => {
                self.cursor_position = 0;
            },
            KeyInput::End => {
                self.cursor_position = self.url.as_str().unicode_len();
            },
            KeyInput::Character => {
                if let Some(t) = text {
                    let chars = to_chars(self.url.as_str());
                    let mut edited: Vec<char> = Vec::new();
                    let mut i: usize = 0;
                    while i < cursor
                        invariant
                            i <= cursor <= chars.len(),
                            edited@ == chars@.subrange(0, i as int),
                        decreases cursor - i,
                    {
                        edited.push(chars[i]);
                        i = i + 1;
                    }
                    let mut written = to_chars(t);
                    edited.append(&mut written);
                    let behind = edited.len();
                    while i < chars.len()
                        invariant
                            cursor <= i <= chars.len(),
                            behind == cursor + t@.len(),
                            edited@ == chars@.subrange(0, cursor as int) + t@ + chars@.subrange(
                                cursor as int,
                                i as int,
                            ),
                        decreases chars.len() - i,
                    {
                        edited.push(chars[i]);
                        i = i + 1;
                    }
                    self.replace_text(&edited, behind);
                }
            },
            KeyInput::Other => {},
        }
        None
    }

    /// What is shown: the text, with a bar behind it while the address bar
    /// has the focus.
    pub fn display_text(&self) -> (shown: String)
        ensures
            shown@ == self@.display_text(),
    {
        if self.is_focused {
            self.url.clone().concat("|")
        } else {
            self.url.clone()
        }
    }
}

impl Default for AddressBar {
    fn default() -> (bar: Self)
        ensures
            bar@ == (AddressBarView { url: "https://example.com"@, is_focused: true, cursor: 0 }),
    {
        AddressBar::new()
    }
}

} // verus!
