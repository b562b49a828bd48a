//! The line the user types into, and how one key of a frame acts on it
//! under the input mode in force.
use vstd::prelude::*;
use crate::bridge::UiInputStateType;

verus! {

broadcast use vstd::string::axiom_spec_iter;

/// A key of interest to the greeter.
pub enum KeyInput {
    /// Enter; while typing, only without modifiers.
    Enter,
    /// Backspace without modifiers.
    Backspace,
    /// Typed text.
    Text(String),
}

/// What a key brought about.
pub enum KeyOutcome {
    Nothing,
    /// The user confirmed.
    Confirmed,
    /// The user submitted this line.
    Submitted(String),
}

/// The text typed so far.
pub struct InputLine {
    chars: Vec<char>,
}

/// The string of `chars`, in order.
///
/// Relies on std's `FromIterator<char>` for `String`, which appends the
/// characters in the order given.
#[verifier::external_body]
fn string_of(chars: &Vec<char>) -> (r: String)
    ensures
        r@ == chars@,
{
    chars.iter().collect()
}

impl InputLine {
    /// The text typed so far.
    pub closed spec fn text(self) -> Seq<char> {
        self.chars@
    }

    /// An empty line.
    pub fn new() -> (r: InputLine)
        ensures
            r.text() == Seq::<char>::empty(),
    {
        InputLine { chars: Vec::new() }
    }

    /// Appends `s`.
    pub fn push_str(&mut self, s: &str)
        ensures
            final(self).text() == old(self).text() + s@,
    {
        let ghost start = self.chars@;
        for c in it: s.chars()
            invariant
                it.seq() == s@,
                self.chars@ == start + it.seq().take(it.index() as int),
        {
            assert(it.seq().take(it.index() + 1) == it.seq().take(it.index() as int).push(c));
            self.chars.push(c);
        }
        assert(s@.take(s@.len() as int) == s@);
    }

    /// Whether nothing has been typed.
    pub fn is_empty(&self) -> (r: bool)
        ensures
            r == (self.text().len() == 0),
    {
        self.chars.len() == 0
    }

    /// Removes the last character, if any.
    pub fn pop(&mut self)
        ensures
            final(self).text() == if old(self).text().len() > 0 {
                old(self).text().drop_last()
            } else {
                old(self).text()
            },
    {
        self.chars.pop();
    }

    /// The text typed so far, as a string.
    pub fn contents(&self) -> (r: String)
        ensures
            r@ == self.text(),
    {
        string_of(&self.chars)
    }

    /// Hands out the text and empties the line.
    pub fn take(&mut self) -> (r: String)
        ensures
            r@ == old(self).text(),
            final(self).text() == Seq::<char>::empty(),
    {
        let r = string_of(&self.chars);
        self.chars = Vec::new();
        r
    }

    /// Acts on one key under input mode `mode`: Enter confirms while a
    /// confirmation is awaited and submits the line while text is awaited;
    /// while text is awaited Backspace removes a character and text is
    /// appended. Any other key, in any other mode, does nothing.
    pub fn on_key(&mut self, mode: UiInputStateType, key: KeyInput) -> (r: KeyOutcome)
        ensures
            match (mode, key) {
                (UiInputStateType::Confirm, KeyInput::Enter) => r is Confirmed
                    && final(self).text() == old(self).text(),
                (UiInputStateType::Text, KeyInput::Enter) => final(self).text() == Seq::<char>::empty()
                    && match r {
                    KeyOutcome::Submitted(s) => s@ == old(self).text(),
                    _ => false,
                },
                (UiInputStateType::Text, KeyInput::Backspace) => r is Nothing && final(self).text() == if old(
                    self,
                ).text().len() > 0 {
                    old(self).text().drop_last()
                } else {
                    old(self).text()
                },
                (UiInputStateType::Text, KeyInput::Text(t)) => r is Nothing && final(self).text() == old(
                    self,
                ).text() + t@,
                _ => r is Nothing && final(self).text() == old(self).text(),
            },
    {
        match (mode, key) {
            (UiInputStateType::Confirm, KeyInput::Enter) => KeyOutcome::Confirmed,
            (UiInputStateType::Text, KeyInput::Enter) => KeyOutcome::Submitted(self.take()),
            (UiInputStateType::Text, KeyInput::Backspace) => {
                self.pop();
                KeyOutcome::Nothing
            },
            (UiInputStateType::Text, KeyInput::Text(t)) => {
                self.push_str(&t);
                KeyOutcome::Nothing
            },
            _ => KeyOutcome::Nothing,
        }
    }
}

} // verus!
