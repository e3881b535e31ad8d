//! The proxy registry and the dispatch client: how a caller finds the loop,
//! hands it a command and learns the outcome.
use vstd::prelude::*;
use crate::events::{command_of, message_command, RuntimeMessage, WindowEvent};

verus! {

/// Why a call to the window loop did not produce its reply.
#[derive(PartialEq, Eq, Structural, Clone, Copy, Debug)]
pub enum DispatchError {
    /// No loop has registered its proxy yet.
    ProxyNotReady,
    /// The loop's event stream is gone.
    InjectionFailed,
    /// The command's writer was dropped without a reply.
    ResponseLost,
}

/// The slot that holds the handle through which commands reach the loop:
/// empty until the loop starts, then set.
pub struct ProxyRegistry<H> {
    slot: Option<H>,
}

impl<H> ProxyRegistry<H> {
    pub closed spec fn view(&self) -> Option<H> {
        self.slot
    }

    /// An empty slot: no loop has started.
    pub fn new() -> (r: ProxyRegistry<H>)
        ensures
            r@ is None,
    {
        ProxyRegistry { slot: None }
    }

    /// Installs the loop's proxy; a later call replaces an earlier one.
    pub fn set_proxy(&mut self, proxy: H)
        ensures
            final(self)@ == Some(proxy),
    {
        self.slot = Some(proxy);
    }

    /// The installed proxy, or `None` before the loop starts.
    pub fn get_proxy(&self) -> (r: Option<&H>)
        ensures
            match r {
                Some(p) => self@ == Some(*p),
                None => self@ is None,
            },
    {
        match &self.slot {
            Some(p) => Some(p),
            None => None,
        }
    }
}

/// The first half of a call: finds the loop's proxy and wraps the command in
/// the envelope to inject through it. Before the loop has started this fails
/// at once with `ProxyNotReady`, and the command's writer is dropped.
pub fn send_window_event<H>(registry: &ProxyRegistry<H>, event: WindowEvent) -> (r: Result<(&H, RuntimeMessage), DispatchError>)
    ensures
        registry@ is None <==> r == Err::<(&H, RuntimeMessage), DispatchError>(DispatchError::ProxyNotReady),
        r is Ok || r == Err::<(&H, RuntimeMessage), DispatchError>(DispatchError::ProxyNotReady),
        r matches Ok((proxy, msg)) ==> {
            &&& registry@ == Some(*proxy)
            &&& msg == RuntimeMessage::Window(event)
            &&& message_command(msg) == command_of(event)
        },
{
    match registry.get_proxy() {
        Some(proxy) => Ok((proxy, RuntimeMessage::Window(event))),
        None => Err(DispatchError::ProxyNotReady),
    }
}

/// The second half of a call: what the caller gets, given whether the loop's
/// stream took the envelope and what the reply reader yielded (`None` when
/// its writer was dropped unresolved).
pub fn settle(injected: bool, received: Option<String>) -> (r: Result<String, DispatchError>)
    ensures
        !injected ==> r == Err::<String, DispatchError>(DispatchError::InjectionFailed),
        injected ==> match received {
            Some(v) => r matches Ok(w) && w@ == v@,
            None => r == Err::<String, DispatchError>(DispatchError::ResponseLost),
        },
{
    if !injected {
        return Err(DispatchError::InjectionFailed);
    }
    match received {
        Some(v) => Ok(v),
        None => Err(DispatchError::ResponseLost),
    }
}

} // verus!
