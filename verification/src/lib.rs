//! An unattended agent that watches chat conversations for incoming photo
//! messages, runs text recognition on each photo, and relays confident
//! matches into a dedicated output channel with the recognized text as a
//! silent reply. Credentials rest in a password-protected encrypted vault.
//!
//! This crate holds the decision logic: the vault's binary format and its
//! sealing and opening, the connection supervisor with its exponential
//! backoff, the idempotent output-channel provisioner, and the forwarding
//! pipeline's filtering and confidence threshold. The unverified runtime
//! around it performs the network, console and recognizer work that the
//! state machines here ask for.

pub mod pipeline;
pub mod profile;
pub mod provisioner;
pub mod supervisor;
pub mod vault;
