//! The status line shown under the two fields.
use vstd::prelude::*;

verus! {

#[derive(PartialEq, Eq, Structural, Clone, Copy, Debug)]
pub enum StateTabStatus {
    Info,
    Error,
}

pub struct StateTab {
    pub status: StateTabStatus,
    pub text: String,
}

impl StateTab {
    pub fn new() -> (r: Self)
        ensures
            r.status == StateTabStatus::Info,
            r.text@ == Seq::<char>::empty(),
    {
        StateTab { status: StateTabStatus::Info, text: String::new() }
    }

    pub fn set_info_text(&mut self, text: String)
        ensures
            final(self).status == StateTabStatus::Info,
            final(self).text@ == text@,
    {
        self.status = StateTabStatus::Info;
        self.text = text;
    }

    pub fn set_error_text(&mut self, text: String)
        ensures
            final(self).status == StateTabStatus::Error,
            final(self).text@ == text@,
    {
        self.status = StateTabStatus::Error;
        self.text = text;
    }
}

} // verus!
