//! The composing core of a Bengali input method: the composition session state machine,
//! the candidate window with its highlight and layout, and the values they exchange with the
//! suggestion engine and the host.

pub mod candidate_list;
pub mod candidates;
pub mod composition;
pub mod conf;
pub mod display_attribute;
pub mod global;
pub mod layout;
