use gst::TryRecvError;
use gst::bus::{bus_callback, cancel_name, Bus, ChannelWatch, Watch};
use gst::engine::{Content, Engine, State, NULL_HANDLE};
use gst::message::Message;

fn bus_on(eng: &mut Engine) -> Bus {
    let h = eng.allocate(Content::ObjectInfo { name: "bus0".to_string(), parent: NULL_HANDLE });
    Bus::new(h).unwrap()
}

#[test]
fn scenario_watch_state_change_eos_and_cancellation() {
    let mut eng = Engine::new();
    let mut bus = bus_on(&mut eng);
    bus.receiver();

    let m = Message::new_state_changed(
        &mut eng,
        None,
        State::Null,
        State::Ready,
        State::VoidPending,
    ).unwrap();
    bus.post(m);
    let got = bus.recv(&mut eng).unwrap();
    match got.parse(&mut eng) {
        Message::StateChangedParsed { old_state, new_state, .. } => {
            assert_eq!(old_state, State::Null);
            assert_eq!(new_state, State::Ready);
        },
        _ => panic!("delivered event decoded into the wrong variant"),
    }

    let eos = Message::new_eos(&mut eng, None).unwrap();
    bus.post(eos);
    let got = bus.recv(&mut eng).unwrap();
    assert!(matches!(got, Message::Eos(_)));

    // Cancel, then post more: nothing further is delivered.
    bus.remove_watch(&mut eng);
    let late = Message::new_eos(&mut eng, None).unwrap();
    bus.post(late);
    bus.pump(&mut eng);
    assert!(matches!(bus.try_recv(), Err(TryRecvError::Disconnected)));
}

#[test]
fn cancellation_flood_delivers_prefix_and_tears_down_once() {
    let mut eng = Engine::new();
    let mut bus = bus_on(&mut eng);
    bus.receiver();

    let e1 = Message::new_buffering(&mut eng, None, 1).unwrap();
    let e2 = Message::new_buffering(&mut eng, None, 2).unwrap();
    bus.post(e1);
    bus.post(e2);
    bus.remove_watch(&mut eng);
    let e3 = Message::new_buffering(&mut eng, None, 3).unwrap();
    let e4 = Message::new_buffering(&mut eng, None, 4).unwrap();
    let h3 = e3.gst_message();
    let h4 = e4.gst_message();
    bus.post(e3);
    bus.post(e4);

    bus.pump(&mut eng);

    // The two events before the sentinel arrive, in order.
    for expected in [1, 2] {
        let got = bus.try_recv().unwrap();
        match got.parse(&mut eng) {
            Message::BufferingParsed { pct, .. } => assert_eq!(pct, expected),
            _ => panic!("delivered event decoded into the wrong variant"),
        }
    }
    // Exactly one teardown, and nothing after the sentinel is delivered:
    // the flooded events were released, not forwarded.
    assert!(matches!(bus.try_recv(), Err(TryRecvError::Disconnected)));
    assert_eq!(eng.count_of(h3), 0);
    assert_eq!(eng.count_of(h4), 0);
}

#[test]
fn delivery_keeps_posting_order() {
    let mut eng = Engine::new();
    let mut bus = bus_on(&mut eng);
    bus.receiver();
    for pct in [10, 20, 30] {
        let m = Message::new_buffering(&mut eng, None, pct).unwrap();
        bus.post(m);
    }
    bus.pump(&mut eng);
    for expected in [10, 20, 30] {
        match bus.try_recv().unwrap().parse(&mut eng) {
            Message::BufferingParsed { pct, .. } => assert_eq!(pct, expected),
            _ => panic!("delivered event decoded into the wrong variant"),
        }
    }
    assert!(matches!(bus.try_recv(), Err(TryRecvError::Empty)));
}

#[test]
fn abandoned_receiver_tears_the_watch_down() {
    let mut eng = Engine::new();
    let mut bus = bus_on(&mut eng);
    bus.receiver();
    bus.drop_receiver();

    let m = Message::new_eos(&mut eng, None).unwrap();
    let h = m.gst_message();
    bus.post(m);
    bus.pump(&mut eng);

    // The event was released, not forwarded, and the watch is gone: a
    // further event is released too.
    assert_eq!(eng.count_of(h), 0);
    let m2 = Message::new_eos(&mut eng, None).unwrap();
    let h2 = m2.gst_message();
    bus.post(m2);
    bus.pump(&mut eng);
    assert_eq!(eng.count_of(h2), 0);
}

#[test]
fn recv_reports_disconnection_after_teardown() {
    let mut eng = Engine::new();
    let mut bus = bus_on(&mut eng);
    bus.receiver();
    bus.remove_watch(&mut eng);
    assert!(bus.recv(&mut eng).is_err());
}

#[test]
fn trampoline_frees_context_on_sentinel() {
    let mut eng = Engine::new();
    let name = cancel_name();
    let sentinel = Message::new_application(&mut eng, None, name.as_str()).unwrap();
    let w = ChannelWatch::new();
    let (slot, keep, back) = bus_callback(w, &eng, sentinel);
    assert!(slot.is_none());
    assert!(!keep);
    assert!(back.is_some());
}

#[test]
fn trampoline_forwards_while_accepting_and_stops_after() {
    let mut eng = Engine::new();
    let m = Message::new_eos(&mut eng, None).unwrap();
    let w = ChannelWatch::new();
    let (slot, keep, back) = bus_callback(w, &eng, m);
    assert!(keep);
    assert!(back.is_none());
    let mut w = slot.unwrap();

    w.disconnect();
    let m2 = Message::new_eos(&mut eng, None).unwrap();
    let (slot, keep, back) = bus_callback(w, &eng, m2);
    assert!(slot.is_none());
    assert!(!keep);
    let rejected = back.unwrap();
    rejected.unref(&mut eng);
}

#[test]
fn genuine_event_with_the_private_name_is_swallowed() {
    // The documented risk of the sentinel protocol: an application event
    // that happens to carry the private name is indistinguishable from a
    // cancellation.
    let mut eng = Engine::new();
    let mut bus = bus_on(&mut eng);
    bus.receiver();
    let name = cancel_name();
    let m = Message::new_application(&mut eng, None, name.as_str()).unwrap();
    bus.post(m);
    bus.pump(&mut eng);
    assert!(matches!(bus.try_recv(), Err(TryRecvError::Disconnected)));
}

#[test]
fn channel_watch_call_forwards_in_order() {
    let mut eng = Engine::new();
    let mut w = ChannelWatch::new();
    let a = Message::new_buffering(&mut eng, None, 1).unwrap();
    let b = Message::new_buffering(&mut eng, None, 2).unwrap();
    assert!(w.call(a).is_none());
    assert!(w.call(b).is_none());
}
