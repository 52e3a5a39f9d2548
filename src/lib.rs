//! The state and rules of a small chat window: a draft being typed, a
//! history of generated responses, and the bounded read-back of recent
//! responses that is handed to the generator as context.

pub mod response;
pub mod store;
pub mod session;
