//! The command protocol: what a caller may ask of the window loop.
use vstd::prelude::*;

verus! {

/// A command for the window, with the writer of its reply.
pub enum WindowEvent {
    GetTitle(tokio::sync::oneshot::Sender<String>),
    SetTitle(String, tokio::sync::oneshot::Sender<String>),
}

/// The envelope injected into the loop's event stream.
pub enum RuntimeMessage {
    Window(WindowEvent),
}

/// What a command asks for, apart from where its reply goes.
pub ghost enum Command {
    GetTitle,
    SetTitle(Seq<char>),
}

pub open spec fn command_of(e: WindowEvent) -> Command {
    match e {
        WindowEvent::GetTitle(_) => Command::GetTitle,
        WindowEvent::SetTitle(t, _) => Command::SetTitle(t@),
    }
}

pub open spec fn message_command(m: RuntimeMessage) -> Command {
    match m {
        RuntimeMessage::Window(e) => command_of(e),
    }
}

/// The writer on which the command's reply goes back to its caller.
pub open spec fn writer_of(m: RuntimeMessage) -> tokio::sync::oneshot::Sender<String> {
    match m {
        RuntimeMessage::Window(WindowEvent::GetTitle(w)) => w,
        RuntimeMessage::Window(WindowEvent::SetTitle(_, w)) => w,
    }
}

/// The acknowledgement that answers a title change.
pub open spec fn ack() -> Seq<char> {
    seq!['O', 'k']
}

/// The title once the command has run on a window titled `title`.
pub open spec fn title_after(title: Seq<char>, c: Command) -> Seq<char> {
    match c {
        Command::GetTitle => title,
        Command::SetTitle(t) => t,
    }
}

/// The reply that the command earns on a window titled `title`.
pub open spec fn reply_to(title: Seq<char>, c: Command) -> Seq<char> {
    match c {
        Command::GetTitle => title,
        Command::SetTitle(_) => ack(),
    }
}

} // verus!
