//! Decisions of a bridge between a desktop front-end and receipt printers.
//!
//! The front-end names a command and hands over strings; the bridge decides
//! what is sent to which printer and which short text goes back. Talking to
//! the operating system's spooler or to a socket is left to the caller. Each
//! printing command has a first half that turns the request into a job, a
//! step function that tells the caller what to ask of the spooler or the
//! network next, and a second half that turns the outcome into the reply.

pub mod drawer;
pub mod network;
pub mod payload;
pub mod spooler;
