//! Session handling and retrieval rules for a course-schedule portal that sits
//! behind a CAS-style single sign-on.
//!
//! The crate holds the decisions of the flow: how requests are built, how a
//! login attempt is classified, how the selection form is read and how a
//! response is told apart from a disguised login page. Network exchange is the
//! caller's business; every function here works on plain values.

pub mod constants;
pub mod text;
pub mod html;
pub mod form;
pub mod login;
pub mod discovery;
pub mod schedule;
pub mod client;
pub mod target;
pub mod flow;
