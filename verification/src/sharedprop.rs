//! The bridge to the human-facing surface: a small set of named fields, each
//! one guarded by its own lock where the program embeds it.  The surface
//! reads the display text, the logged flag and the listening indicator and
//! writes pending user input; the agent does the inverse.  There is no
//! cross-field atomicity: last write wins on each field individually.

use vstd::prelude::*;

verus! {

/// The shared fields, as one plain record.
pub struct SharedProp {
    pub rori_text: String,
    pub user_text: String,
    pub api_text: String,
    pub is_listening: bool,
    pub logged: bool,
}

/// The mathematical content of a `SharedProp`.
pub struct SharedPropView {
    pub rori_text: Seq<char>,
    pub user_text: Seq<char>,
    pub api_text: Seq<char>,
    pub is_listening: bool,
    pub logged: bool,
}

impl View for SharedProp {
    type V = SharedPropView;

    open spec fn view(&self) -> SharedPropView {
        SharedPropView {
            rori_text: self.rori_text@,
            user_text: self.user_text@,
            api_text: self.api_text@,
            is_listening: self.is_listening,
            logged: self.logged,
        }
    }
}

impl SharedProp {
    /// The fields at start-up: every text empty, every flag down.
    pub fn new() -> (r: SharedProp)
        ensures
            r@.rori_text.len() == 0,
            r@.user_text.len() == 0,
            r@.api_text.len() == 0,
            !r@.is_listening,
            !r@.logged,
    {
        SharedProp {
            rori_text: String::new(),
            user_text: String::new(),
            api_text: String::new(),
            is_listening: false,
            logged: false,
        }
    }

    /// Writes the externally proxied text field.
    pub fn set_api_text(&mut self, text: String)
        ensures
            final(self)@ == (SharedPropView { api_text: text@, ..old(self)@ }),
    {
        self.api_text = text;
    }

    /// Writes the pending user input, as the surface does after a keystroke.
    pub fn set_user_text(&mut self, text: String)
        ensures
            final(self)@ == (SharedPropView { user_text: text@, ..old(self)@ }),
    {
        self.user_text = text;
    }

    /// Reads the externally proxied text field.
    pub fn get_api_text(&self) -> (r: String)
        ensures
            r@ == self@.api_text,
    {
        self.api_text.clone()
    }

    /// Reads the display text the agent last surfaced.
    pub fn get_rori_text(&self) -> (r: String)
        ensures
            r@ == self@.rori_text,
    {
        self.rori_text.clone()
    }

    /// Reads the logged flag.
    pub fn get_logged(&self) -> (r: bool)
        ensures
            r == self@.logged,
    {
        self.logged
    }

    /// Reads the listening indicator.
    pub fn get_is_listening(&self) -> (r: bool)
        ensures
            r == self@.is_listening,
    {
        self.is_listening
    }
}

} // verus!
