//! The controller that keeps the plain-text field and the Base64 field in step.
//!
//! The UI hands it focus, blur and content events and carries out the commands
//! it returns. Only an edit of the focused field is acted on, so the content that
//! the controller itself pushes into the other field does not feed back.
use crate::base64_state::{cipher_of, Base64State};
use crate::codec::encodable;
use crate::state_tab::{StateTab, StateTabStatus};
use vstd::prelude::*;

verus! {

#[derive(PartialEq, Eq, Structural, Clone, Copy, Debug)]
pub enum Field {
    PlainText,
    CipherText,
}

/// What the UI is asked to do.
#[derive(PartialEq, Eq, Debug)]
pub enum Command {
    SetFieldContent(Field, String),
    SetStatus(StateTabStatus, String),
    MoveFocusTo(Field),
}

pub open spec fn ready_text() -> Seq<char> {
    "Ready to encode/decode base64 text"@
}

pub open spec fn invalid_text() -> Seq<char> {
    "Invalid base64 text"@
}

/// The status shown after a codec operation that left `invalid` behind.
pub open spec fn status_for(invalid: bool) -> (StateTabStatus, Seq<char>) {
    if invalid {
        (StateTabStatus::Error, invalid_text())
    } else {
        (StateTabStatus::Info, ready_text())
    }
}

pub open spec fn sets_content(c: Command, f: Field, v: Seq<char>) -> bool {
    c matches Command::SetFieldContent(g, w) && g == f && w@ == v
}

pub open spec fn sets_status(c: Command, s: StateTabStatus, t: Seq<char>) -> bool {
    c matches Command::SetStatus(g, w) && g == s && w@ == t
}

pub struct TextConvertView {
    pub base64_state: Base64State,
    pub state_tab: StateTab,
    /// The field that has input focus, if any.
    pub focused_input: Option<Field>,
}

impl TextConvertView {
    pub open spec fn status(self) -> (StateTabStatus, Seq<char>) {
        (self.state_tab.status, self.state_tab.text@)
    }

    pub fn new() -> (r: Self)
        ensures
            r.focused_input is None,
            r.base64_state.model() == (Seq::<char>::empty(), Seq::<char>::empty(), false),
            r.status() == (StateTabStatus::Info, ready_text()),
    {
        let mut state_tab = StateTab::new();
        state_tab.set_info_text("Ready to encode/decode base64 text".to_owned());
        TextConvertView { base64_state: Base64State::new(), state_tab, focused_input: None }
    }

    pub fn on_focus(&mut self, field: Field)
        ensures
            final(self).focused_input == Some(field),
            final(self).base64_state == old(self).base64_state,
            final(self).state_tab == old(self).state_tab,
    {
        self.focused_input = Some(field);
    }

    /// Any blur clears the focus, whichever field it came from.
    pub fn on_blur(&mut self, _field: Field)
        ensures
            final(self).focused_input is None,
            final(self).base64_state == old(self).base64_state,
            final(self).state_tab == old(self).state_tab,
    {
        self.focused_input = None;
    }

    /// Sets the status from the codec's validity flag.
    pub fn update_state_tab(&mut self) -> (r: Command)
        ensures
            final(self).status() == status_for(old(self).base64_state.invalid_base64),
            sets_status(r, final(self).status().0, final(self).status().1),
            final(self).base64_state == old(self).base64_state,
            final(self).focused_input == old(self).focused_input,
    {
        if self.base64_state.invalid_base64 {
            self.state_tab.set_error_text("Invalid base64 text".to_owned());
            Command::SetStatus(StateTabStatus::Error, "Invalid base64 text".to_owned())
        } else {
            self.state_tab.set_info_text("Ready to encode/decode base64 text".to_owned());
            Command::SetStatus(StateTabStatus::Info, "Ready to encode/decode base64 text".to_owned())
        }
    }

    /// An edit of `field`, now holding `value`. An edit of a field that is not
    /// the focused one changes nothing and asks for nothing.
    pub fn on_content_changed(&mut self, field: Field, value: &str) -> (r: Vec<Command>)
        requires
            field == Field::PlainText ==> encodable(value@),
        ensures
            old(self).focused_input != Some(field) ==> *final(self) == *old(self) && r@.len() == 0,
            old(self).focused_input == Some(field) ==> {
                &&& final(self).focused_input == old(self).focused_input
                &&& field == Field::PlainText ==> final(self).base64_state.model() == (
                    value@,
                    cipher_of(value@),
                    false,
                )
                &&& field == Field::CipherText ==> final(self).base64_state.model()
                    == old(self).base64_state.decoded_from(value@)
                &&& final(self).status() == status_for(final(self).base64_state.invalid_base64)
                &&& r@.len() == 2
                &&& field == Field::PlainText ==> sets_content(
                    r@[0],
                    Field::CipherText,
                    final(self).base64_state.cipher_text@,
                )
                &&& field == Field::CipherText ==> sets_content(
                    r@[0],
                    Field::PlainText,
                    final(self).base64_state.plain_text@,
                )
                &&& sets_status(r@[1], final(self).status().0, final(self).status().1)
            },
    {
        let mut commands: Vec<Command> = Vec::new();
        if self.focused_input != Some(field) {
            return commands;
        }
        match field {
            Field::PlainText => {
                self.base64_state.encode(value);
                commands.push(
                    Command::SetFieldContent(Field::CipherText, self.base64_state.cipher_text.clone()),
                );
            },
            Field::CipherText => {
                self.base64_state.decode(value);
                commands.push(
                    Command::SetFieldContent(Field::PlainText, self.base64_state.plain_text.clone()),
                );
            },
        }
        let status = self.update_state_tab();
        commands.push(status);
        commands
    }

    /// Clears both fields and the codec state, and shows the ready status. The
    /// focus is left as it was.
    pub fn reset(&mut self) -> (r: Vec<Command>)
        ensures
            final(self).base64_state.model() == (Seq::<char>::empty(), Seq::<char>::empty(), false),
            final(self).status() == (StateTabStatus::Info, ready_text()),
            final(self).focused_input == old(self).focused_input,
            r@.len() == 3,
            sets_content(r@[0], Field::PlainText, Seq::<char>::empty()),
            sets_content(r@[1], Field::CipherText, Seq::<char>::empty()),
            sets_status(r@[2], StateTabStatus::Info, ready_text()),
    {
        self.base64_state.reset();
        let mut commands: Vec<Command> = Vec::new();
        commands.push(Command::SetFieldContent(Field::PlainText, String::new()));
        commands.push(Command::SetFieldContent(Field::CipherText, String::new()));
        let status = self.update_state_tab();
        commands.push(status);
        commands
    }

    pub fn focus_plain_text_input(&self) -> (r: Command)
        ensures
            r == Command::MoveFocusTo(Field::PlainText),
    {
        Command::MoveFocusTo(Field::PlainText)
    }

    pub fn focus_cipher_text_input(&self) -> (r: Command)
        ensures
            r == Command::MoveFocusTo(Field::CipherText),
    {
        Command::MoveFocusTo(Field::CipherText)
    }
}

} // verus!
