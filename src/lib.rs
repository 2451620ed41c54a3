//! Guest-side command execution agent: the decisions it makes on each
//! request, the interpreter it runs commands under, and the portal-call
//! requests it hands to the host.
pub mod exec;
pub mod listen;
pub mod portal;
pub mod shell;
