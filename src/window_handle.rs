//! The caller's side of the window: it builds each command together with the
//! reader on which its reply arrives.
use vstd::prelude::*;
use tokio::sync::oneshot::Receiver;
use crate::channel::reply_channel;
use crate::events::{command_of, Command, WindowEvent};

verus! {

/// A handle through which callers control the window's title.
pub struct WindowHandle {}

impl WindowHandle {
    pub fn new() -> (r: WindowHandle)
        ensures
            r == (WindowHandle {}),
    {
        WindowHandle {}
    }

    /// A command that asks for a new title, and the reader of its
    /// acknowledgement.
    pub fn set_title(&self, new_title: String) -> (r: (WindowEvent, Receiver<String>))
        ensures
            command_of(r.0) == Command::SetTitle(new_title@),
    {
        let (tx, rx) = reply_channel();
        (WindowEvent::SetTitle(new_title, tx), rx)
    }

    /// A command that asks for the current title, and the reader of it.
    pub fn get_title(&self) -> (r: (WindowEvent, Receiver<String>))
        ensures
            command_of(r.0) == Command::GetTitle,
    {
        let (tx, rx) = reply_channel();
        (WindowEvent::GetTitle(tx), rx)
    }
}

} // verus!
