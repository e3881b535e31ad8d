//! The event-loop dispatcher: it runs on the thread that owns the window,
//! executes each injected command against the window's title, and hands the
//! command's reply back with the command's own writer. The loop itself, and
//! the window it drives, stay with the caller, who performs the action that
//! each step returns and then sends the reply.
use vstd::prelude::*;
use crate::events::{ack, message_command, writer_of, reply_to, title_after, Command, RuntimeMessage, WindowEvent};

verus! {

/// Whether the loop still takes commands.
#[derive(PartialEq, Eq, Structural, Clone, Copy, Debug)]
pub enum LoopState {
    Running,
    Exiting,
}

/// One event of the loop's unified stream.
pub enum LoopEvent {
    /// The user asked the window to close.
    CloseRequested,
    /// A command injected through the proxy.
    User(RuntimeMessage),
    /// Any other native event: it is the toolkit's business.
    Other,
}

/// What the loop must do after a step.
#[derive(PartialEq, Eq, Debug, Clone)]
pub enum LoopAction {
    /// Keep waiting for events.
    Wait,
    /// Show this title on the window, then keep waiting.
    ShowTitle(String),
    /// Leave the loop.
    Exit,
}

/// A command's reply, and the writer of the caller that waits for it.
pub struct Reply {
    pub writer: tokio::sync::oneshot::Sender<String>,
    pub value: String,
}

/// The window's title and the loop's state, owned by the loop's thread.
pub struct Dispatcher {
    title: String,
    state: LoopState,
}

impl Dispatcher {
    pub closed spec fn title_view(&self) -> Seq<char> {
        self.title@
    }

    pub closed spec fn state_view(&self) -> LoopState {
        self.state
    }

    /// A running loop over a window titled `title`.
    pub fn new(title: String) -> (r: Dispatcher)
        ensures
            r.title_view() == title@,
            r.state_view() == LoopState::Running,
    {
        Dispatcher { title, state: LoopState::Running }
    }

    /// The window's current title.
    pub fn title(&self) -> (r: String)
        ensures
            r@ == self.title_view(),
    {
        self.title.clone()
    }

    pub fn state(&self) -> (r: LoopState)
        ensures
            r == self.state_view(),
    {
        self.state
    }

    /// Runs one command and gives back its reply together with the
    /// command's own writer, so that the reply is sent once the loop has
    /// applied the change to the window.
    ///
    /// While running, the title becomes `title_after`, and the reply is
    /// `reply_to` on the title before the command: a whole title, never a
    /// part of one. Once the loop is exiting, the command is not run and its
    /// writer is dropped unresolved, so that its caller learns that the
    /// response is lost.
    pub fn handle_message(&mut self, msg: RuntimeMessage) -> (reply: Option<Reply>)
        ensures
            final(self).state_view() == old(self).state_view(),
            old(self).state_view() == LoopState::Running ==> {
                &&& final(self).title_view() == title_after(old(self).title_view(), message_command(msg))
                &&& reply matches Some(r) && r.writer == writer_of(msg)
                    && r.value@ == reply_to(old(self).title_view(), message_command(msg))
            },
            old(self).state_view() == LoopState::Exiting ==> {
                &&& final(self).title_view() == old(self).title_view()
                &&& reply is None
            },
    {
        if self.state == LoopState::Exiting {
            return None;
        }
        match msg {
            RuntimeMessage::Window(event) => match event {
                WindowEvent::GetTitle(writer) => {
                    Some(Reply { writer, value: self.title.clone() })
                },
                WindowEvent::SetTitle(title, writer) => {
                    self.title = title;
                    let value = String::from_str("Ok");
                    proof {
                        reveal_strlit("Ok");
                    }
                    assert(value@ == ack());
                    Some(Reply { writer, value })
                },
            },
        }
    }

    /// One turn of the loop: it takes the next event of the stream and says
    /// what the loop must do, and which reply, if any, it must then send.
    ///
    /// A close request moves the loop to `Exiting` for good, and every step
    /// from then on answers `Exit` and drops its command's writer
    /// unresolved. A command on a running loop is run as `handle_message`
    /// says; a new title is to be shown on the window before the
    /// acknowledgement goes out.
    pub fn step(&mut self, event: LoopEvent) -> (out: (LoopAction, Option<Reply>))
        ensures
            old(self).state_view() == LoopState::Exiting ==> {
                &&& final(self).state_view() == LoopState::Exiting
                &&& final(self).title_view() == old(self).title_view()
                &&& out.0 == LoopAction::Exit
                &&& out.1 is None
            },
            old(self).state_view() == LoopState::Running ==> match event {
                LoopEvent::CloseRequested => {
                    &&& final(self).state_view() == LoopState::Exiting
                    &&& final(self).title_view() == old(self).title_view()
                    &&& out.0 == LoopAction::Exit
                    &&& out.1 is None
                },
                LoopEvent::User(msg) => {
                    &&& final(self).state_view() == LoopState::Running
                    &&& final(self).title_view() == title_after(old(self).title_view(), message_command(msg))
                    &&& match message_command(msg) {
                        Command::GetTitle => out.0 == LoopAction::Wait,
                        Command::SetTitle(t) => out.0 matches LoopAction::ShowTitle(s) && s@ == t,
                    }
                    &&& out.1 matches Some(r) && r.writer == writer_of(msg)
                        && r.value@ == reply_to(old(self).title_view(), message_command(msg))
                },
                LoopEvent::Other => {
                    &&& final(self).state_view() == LoopState::Running
                    &&& final(self).title_view() == old(self).title_view()
                    &&& out.0 == LoopAction::Wait
                    &&& out.1 is None
                },
            },
    {
        match event {
            LoopEvent::CloseRequested => {
                self.state = LoopState::Exiting;
                (LoopAction::Exit, None)
            },
            LoopEvent::User(msg) => {
                if self.state == LoopState::Exiting {
                    let dropped = self.handle_message(msg);
                    return (LoopAction::Exit, dropped);
                }
                let shows_title = match &msg {
                    RuntimeMessage::Window(WindowEvent::SetTitle(_, _)) => true,
                    RuntimeMessage::Window(WindowEvent::GetTitle(_)) => false,
                };
                let reply = self.handle_message(msg);
                if shows_title {
                    (LoopAction::ShowTitle(self.title.clone()), reply)
                } else {
                    (LoopAction::Wait, reply)
                }
            },
            LoopEvent::Other => {
                if self.state == LoopState::Exiting {
                    (LoopAction::Exit, None)
                } else {
                    (LoopAction::Wait, None)
                }
            },
        }
    }
}

/// The title once the loop has run `cmds`, in order, on a window titled
/// `title`.
pub open spec fn title_after_all(title: Seq<char>, cmds: Seq<Command>) -> Seq<char>
    decreases cmds.len(),
{
    if cmds.len() == 0 {
        title
    } else {
        title_after(title_after_all(title, cmds.drop_last()), cmds.last())
    }
}

/// Read after write: once a title change has run, a read that follows it
/// returns exactly the title that was written, whatever reads of other
/// callers ran in between and whatever ran before the change.
pub proof fn read_after_write(title: Seq<char>, before: Seq<Command>, written: Seq<char>, between: Seq<Command>)
    requires
        forall|i: int| 0 <= i < between.len() ==> between[i] == Command::GetTitle,
    ensures
        reply_to(
            title_after_all(title, before.push(Command::SetTitle(written)) + between),
            Command::GetTitle,
        ) == written,
    decreases between.len(),
{
    let cmds = before.push(Command::SetTitle(written)) + between;
    if between.len() == 0 {
        assert(cmds =~= before.push(Command::SetTitle(written)));
        assert(cmds.drop_last() =~= before);
    } else {
        let shorter = between.drop_last();
        read_after_write(title, before, written, shorter);
        assert(cmds.drop_last() =~= before.push(Command::SetTitle(written)) + shorter);
        assert(cmds.last() == between.last());
    }
}

/// Every reply to a read is a whole title: the title that stood before some
/// whole command ran, and every command leaves either the old title or the
/// whole title it asked for, never a mixture of the two.
pub proof fn replies_are_whole_titles(title: Seq<char>, c: Command)
    ensures
        reply_to(title, Command::GetTitle) == title,
        title_after(title, c) == title || c == Command::SetTitle(title_after(title, c)),
{
}

/// Two title changes from different callers, run in either order: the title
/// afterwards is the one that ran last, so one of the two and never a
/// mixture, and each caller is acknowledged.
pub proof fn competing_writes(title: Seq<char>, a: Seq<char>, b: Seq<char>)
    ensures
        title_after(title_after(title, Command::SetTitle(a)), Command::SetTitle(b)) == b,
        title_after(title_after(title, Command::SetTitle(b)), Command::SetTitle(a)) == a,
        reply_to(title, Command::SetTitle(a)) == ack(),
        reply_to(title_after(title, Command::SetTitle(a)), Command::SetTitle(b)) == ack(),
{
}

} // verus!
