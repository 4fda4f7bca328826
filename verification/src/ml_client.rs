//! Talking to a verifier over HTTP: what is sent, and what an answer means.

pub mod http;
