//! The core of a chat server for local language models, verified with
//! Verus.
//!
//! A request passes through the modules in this order:
//!
//! - [`template`] names the prompt dialects and [`registry`] gives each its
//!   formatting strategy;
//! - [`prompt`] renders the messages of a conversation ([`message`]) as the
//!   one prompt string of a dialect;
//! - [`inference`] turns the prompt into the bytes that the engine takes
//!   and the engine's bytes back into text;
//! - [`decode`] is the token-by-token loop as a state machine, with its
//!   stop string and its leading-space rule;
//! - [`postprocess`] strips the end-of-turn marker from a complete output;
//! - [`generation`] concludes a call with the text and its token counts;
//! - [`response`] counts tokens and assembles the response records.
//!
//! [`text`] holds the text primitives that the others are stated over.
//!
//! The engine is not called from here. The caller pulls from it and hands
//! what comes back to this library as plain values.
pub mod decode;
pub mod generation;
pub mod inference;
pub mod message;
pub mod postprocess;
pub mod prompt;
pub mod registry;
pub mod response;
pub mod template;
pub mod text;
