//! The command layer of a desktop shell: the operations that the front end
//! can invoke, and the bridge to the agent process that answers chat
//! messages.
//!
//! Everything here computes on plain values. Looking up the working
//! directory, probing the file system and running the agent are left to the
//! caller, which reports what happened as an [`agent::Event`].

pub mod text;
pub mod greeting;
pub mod workflow;
pub mod paths;
pub mod process;
pub mod agent;
