//! A request/response bridge between asynchronous callers and the single
//! thread that owns a window: callers build a command with a one-shot reply
//! channel, find the loop through a registry, and the loop's dispatcher runs
//! each command against the window's title and hands its reply back with
//! the command's own writer.
pub mod channel;
pub mod dispatcher;
pub mod events;
pub mod runtime;
pub mod window_handle;
