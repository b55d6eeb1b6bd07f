use vstd::prelude::*;

pub mod base64_state;
pub mod codec;
pub mod state_tab;
pub mod text_convert_view;

verus! {

} // verus!
