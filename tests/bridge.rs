use pygui::dispatcher::{Dispatcher, LoopAction, LoopEvent, LoopState, Reply};
use pygui::events::RuntimeMessage;
use pygui::runtime::{send_window_event, settle, DispatchError, ProxyRegistry};
use pygui::window_handle::WindowHandle;
use tokio::sync::oneshot::error::TryRecvError;

fn deliver(out: (LoopAction, Option<Reply>)) -> LoopAction {
    if let Some(reply) = out.1 {
        let _ = reply.writer.send(reply.value);
    }
    out.0
}

fn run(d: &mut Dispatcher, event: pygui::events::WindowEvent) -> LoopAction {
    deliver(d.step(LoopEvent::User(RuntimeMessage::Window(event))))
}

#[test]
fn initial_title_then_change_then_read() {
    let handle = WindowHandle::new();
    let mut d = Dispatcher::new("PyFrame".to_string());

    let (ev, mut rx) = handle.get_title();
    assert_eq!(run(&mut d, ev), LoopAction::Wait);
    assert_eq!(rx.try_recv().unwrap(), "PyFrame");

    let (ev, mut rx) = handle.set_title("Hello".to_string());
    assert_eq!(run(&mut d, ev), LoopAction::ShowTitle("Hello".to_string()));
    assert_eq!(rx.try_recv().unwrap(), "Ok");

    let (ev, mut rx) = handle.get_title();
    run(&mut d, ev);
    assert_eq!(rx.try_recv().unwrap(), "Hello");
    assert_eq!(d.title(), "Hello");
}

#[test]
fn read_after_write_with_reads_between() {
    let handle = WindowHandle::new();
    let mut d = Dispatcher::new("PyFrame".to_string());
    let (ev, _rx) = handle.set_title("x".to_string());
    run(&mut d, ev);
    let (ev, _rx2) = handle.get_title();
    run(&mut d, ev);
    let (ev, mut rx) = handle.get_title();
    run(&mut d, ev);
    assert_eq!(rx.try_recv().unwrap(), "x");
}

#[test]
fn competing_title_changes_leave_one_whole_title() {
    let handle = WindowHandle::new();
    let mut d = Dispatcher::new("PyFrame".to_string());
    let (ev_a, mut rx_a) = handle.set_title("A".to_string());
    let (ev_b, mut rx_b) = handle.set_title("B".to_string());
    run(&mut d, ev_a);
    run(&mut d, ev_b);
    assert_eq!(rx_a.try_recv().unwrap(), "Ok");
    assert_eq!(rx_b.try_recv().unwrap(), "Ok");
    let (ev, mut rx) = handle.get_title();
    run(&mut d, ev);
    let title = rx.try_recv().unwrap();
    assert!(title == "A" || title == "B");
    assert_eq!(title, "B");
}

#[test]
fn call_before_loop_starts_is_not_ready() {
    let registry: ProxyRegistry<u32> = ProxyRegistry::new();
    assert!(registry.get_proxy().is_none());
    let handle = WindowHandle::new();
    let (ev, _rx) = handle.get_title();
    assert!(matches!(send_window_event(&registry, ev), Err(DispatchError::ProxyNotReady)));
    let (ev, _rx) = handle.set_title("Hello".to_string());
    assert!(matches!(send_window_event(&registry, ev), Err(DispatchError::ProxyNotReady)));
}

#[test]
fn registered_proxy_is_found_and_replaced() {
    let mut registry: ProxyRegistry<u32> = ProxyRegistry::new();
    registry.set_proxy(7);
    assert_eq!(registry.get_proxy(), Some(&7));
    registry.set_proxy(9);
    assert_eq!(registry.get_proxy(), Some(&9));
    let handle = WindowHandle::new();
    let (ev, _rx) = handle.set_title("T".to_string());
    match send_window_event(&registry, ev) {
        Ok((proxy, RuntimeMessage::Window(pygui::events::WindowEvent::SetTitle(t, _)))) => {
            assert_eq!(*proxy, 9);
            assert_eq!(t, "T");
        }
        _ => panic!("expected the wrapped command"),
    }
}

#[test]
fn dropped_caller_does_not_stop_the_loop() {
    let handle = WindowHandle::new();
    let mut d = Dispatcher::new("PyFrame".to_string());
    let (ev, rx) = handle.set_title("Gone".to_string());
    drop(rx);
    assert_eq!(run(&mut d, ev), LoopAction::ShowTitle("Gone".to_string()));
    assert_eq!(d.state(), LoopState::Running);
    let (ev, mut rx) = handle.get_title();
    run(&mut d, ev);
    assert_eq!(rx.try_recv().unwrap(), "Gone");
}

#[test]
fn close_request_drops_queued_commands() {
    let handle = WindowHandle::new();
    let mut d = Dispatcher::new("PyFrame".to_string());
    assert_eq!(deliver(d.step(LoopEvent::CloseRequested)), LoopAction::Exit);
    assert_eq!(d.state(), LoopState::Exiting);
    let (ev, mut rx) = handle.set_title("Late".to_string());
    assert_eq!(run(&mut d, ev), LoopAction::Exit);
    assert!(matches!(rx.try_recv(), Err(TryRecvError::Closed)));
    assert_eq!(settle(true, rx.try_recv().ok()), Err(DispatchError::ResponseLost));
    assert_eq!(d.title(), "PyFrame");
    assert_eq!(deliver(d.step(LoopEvent::Other)), LoopAction::Exit);
}

#[test]
fn other_native_events_change_nothing() {
    let mut d = Dispatcher::new("PyFrame".to_string());
    assert_eq!(deliver(d.step(LoopEvent::Other)), LoopAction::Wait);
    assert_eq!(d.title(), "PyFrame");
    assert_eq!(d.state(), LoopState::Running);
}

#[test]
fn handle_message_offers_the_reply() {
    let handle = WindowHandle::new();
    let mut d = Dispatcher::new("PyFrame".to_string());
    let (ev, _rx) = handle.get_title();
    assert_eq!(d.handle_message(RuntimeMessage::Window(ev)).map(|r| r.value), Some("PyFrame".to_string()));
    let (ev, _rx) = handle.set_title("New".to_string());
    assert_eq!(d.handle_message(RuntimeMessage::Window(ev)).map(|r| r.value), Some("Ok".to_string()));
    d.step(LoopEvent::CloseRequested);
    let (ev, _rx) = handle.get_title();
    assert_eq!(d.handle_message(RuntimeMessage::Window(ev)).map(|r| r.value), None);
}

#[test]
fn settle_maps_each_outcome() {
    assert_eq!(settle(true, Some("Hello".to_string())), Ok("Hello".to_string()));
    assert_eq!(settle(true, None), Err(DispatchError::ResponseLost));
    assert_eq!(settle(false, Some("Hello".to_string())), Err(DispatchError::InjectionFailed));
    assert_eq!(settle(false, None), Err(DispatchError::InjectionFailed));
}

#[test]
fn reply_goes_to_the_commands_own_writer() {
    let handle = WindowHandle::new();
    let mut d = Dispatcher::new("PyFrame".to_string());
    let (ev_a, mut rx_a) = handle.set_title("A".to_string());
    let (ev_b, mut rx_b) = handle.get_title();
    let (action, reply) = d.step(LoopEvent::User(RuntimeMessage::Window(ev_a)));
    assert_eq!(action, LoopAction::ShowTitle("A".to_string()));
    assert!(matches!(rx_a.try_recv(), Err(TryRecvError::Empty)));
    let reply = reply.unwrap();
    assert_eq!(reply.value, "Ok");
    reply.writer.send(reply.value).unwrap();
    assert_eq!(rx_a.try_recv().unwrap(), "Ok");
    assert!(matches!(rx_b.try_recv(), Err(TryRecvError::Empty)));
    let (_, reply) = d.step(LoopEvent::User(RuntimeMessage::Window(ev_b)));
    let reply = reply.unwrap();
    reply.writer.send(reply.value).unwrap();
    assert_eq!(rx_b.try_recv().unwrap(), "A");
}
