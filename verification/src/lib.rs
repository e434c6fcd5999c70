//! Obtain a temporary session token for a named credential profile: an MFA
//! prompt gated on an interactive terminal, and the linear bootstrap sequence
//! that resolves credentials, requests a session token and prints it.

pub mod bootstrap;
pub mod mfa;
