//! State and rules of a desktop pet overlay: the interaction mode of its
//! window, the size of its character, the chat transcript, and the outcome
//! of one exchange with the local inference service.

pub mod mode;
pub mod message;
pub mod transcript;
pub mod status;
pub mod exchange;
pub mod menu;
pub mod panel;
pub mod state;
