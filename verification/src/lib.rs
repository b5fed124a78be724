//! Clipboard selection ownership for the X Window System: the protocol
//! logic of a client that owns `CLIPBOARD` and `PRIMARY` and answers
//! conversion requests for one piece of text.
//!
//! The library holds no connection. It is the part that decides, and it is
//! verified with Verus:
//!
//! - [`atoms`]: the symbolic names and the table of their atoms;
//! - [`protocol`]: the events that come in and the requests that go out;
//! - [`session`]: the steps that make a client the selection owner;
//! - [`responder`]: what a conversion request gets for an answer;
//! - [`manager`]: the event loop.
//!
//! A program that holds a connection walks through a
//! [`session::SessionSetup`], sending each request that it names and handing
//! back the server's answer, and makes a [`ClipboardManager`] from the
//! session that results. It then hands each event that it reads to
//! [`ClipboardManager::handle_event`] and sends what comes back, until the
//! manager has stopped running.

pub mod atoms;
pub mod manager;
pub mod protocol;
pub mod responder;
pub mod session;

pub use crate::manager::ClipboardManager;
