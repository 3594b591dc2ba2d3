//! Bridge logic for a prompt-completion service.
//!
//! The library holds the decisions behind a foreign-callable prompt query:
//! turning the caller's raw bytes into a prompt, turning the upstream
//! outcome into the response string handed back over the boundary, and
//! deciding when a response can be marshaled into a C string. The foreign
//! boundary itself (raw pointers, the environment, the network call) lives
//! outside the library and only hands plain values in and out.

pub mod input;
pub mod marshal;
pub mod response;
