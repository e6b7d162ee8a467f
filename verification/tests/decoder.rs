use gst::engine::{Content, Engine, MessageKind, State, NULL_HANDLE};
use gst::error::Error;
use gst::message::Message;
use gst::object::Object;

#[test]
fn parse_error_decodes_the_triple() {
    let mut eng = Engine::new();
    let err = Error::new(7, 42, "codec gave up");
    let m = Message::new_error(&mut eng, None, &err, "at element sink0").unwrap();
    let p = m.parse(&mut eng);
    match p {
        Message::ErrorParsed { msg, error, debug } => {
            assert_ne!(msg, m.gst_message());
            assert_eq!(error.domain(), 7);
            assert_eq!(error.code(), 42);
            assert_eq!(error.message(), "codec gave up");
            assert_eq!(debug, "at element sink0");
        },
        _ => panic!("error message decoded into the wrong variant"),
    }
}

#[test]
fn parse_twice_gives_equal_payload_on_independent_handles() {
    let mut eng = Engine::new();
    let err = Error::new(1, 2, "threefold");
    let m = Message::new_warning(&mut eng, None, &err, "dbg").unwrap();

    let p1 = m.parse(&mut eng);
    let p2 = m.parse(&mut eng);
    let (h1, e1, d1) = match p1 {
        Message::WarningParsed { msg, error, debug } => (msg, error, debug),
        _ => panic!("first decode lost its variant"),
    };
    let (h2, e2, d2) = match p2 {
        Message::WarningParsed { msg, error, debug } => (msg, error, debug),
        _ => panic!("second decode lost its variant"),
    };
    assert_eq!(e1, e2);
    assert_eq!(d1, d2);
    assert_ne!(h1, h2);
    assert_eq!(eng.count_of(h1), 1);
    assert_eq!(eng.count_of(h2), 1);

    // Dropping one copy leaves the other untouched.
    eng.decref(h1);
    assert_eq!(eng.count_of(h1), 0);
    assert_eq!(eng.count_of(h2), 1);
    assert_eq!(e2.domain(), 1);
    assert_eq!(e2.code(), 2);
    assert_eq!(e2.message(), "threefold");
    // The source is still there as well.
    assert_eq!(eng.count_of(m.gst_message()), 1);
}

#[test]
fn parse_state_changed_decodes_the_triple() {
    let mut eng = Engine::new();
    let m = Message::new_state_changed(
        &mut eng,
        None,
        State::Null,
        State::Ready,
        State::VoidPending,
    ).unwrap();
    match m.parse(&mut eng) {
        Message::StateChangedParsed { old_state, new_state, pending, .. } => {
            assert_eq!(old_state, State::Null);
            assert_eq!(new_state, State::Ready);
            assert_eq!(pending, State::VoidPending);
        },
        _ => panic!("state transition decoded into the wrong variant"),
    }
}

#[test]
fn parse_buffering_and_tag() {
    let mut eng = Engine::new();
    let m = Message::new_buffering(&mut eng, None, 55).unwrap();
    match m.parse(&mut eng) {
        Message::BufferingParsed { pct, .. } => assert_eq!(pct, 55),
        _ => panic!("buffering decoded into the wrong variant"),
    }

    let tags = vec!["title=t".to_string(), "artist=a".to_string()];
    let t = Message::new_tag(&mut eng, None, tags).unwrap();
    match t.parse(&mut eng) {
        Message::TagParsed { tags, .. } => {
            assert_eq!(tags.len(), 2);
            assert_eq!(tags[0], "title=t");
            assert_eq!(tags[1], "artist=a");
        },
        _ => panic!("tag message decoded into the wrong variant"),
    }
}

#[test]
fn parse_passes_plain_kinds_through() {
    let mut eng = Engine::new();
    let m = Message::new_eos(&mut eng, None).unwrap();
    let p = m.parse(&mut eng);
    match p {
        Message::Eos(h) => {
            assert_ne!(h, m.gst_message());
            assert_eq!(eng.count_of(h), 1);
        },
        _ => panic!("end-of-stream decoded into the wrong variant"),
    }
}

#[test]
fn kind_and_label() {
    let mut eng = Engine::new();
    let err = Error::new(0, 0, "");
    let m = Message::new_error(&mut eng, None, &err, "").unwrap();
    assert_eq!(m.ty(), MessageKind::Error);
    assert_eq!(m.type_label(), "error");

    let s = Message::new_state_changed(
        &mut eng,
        None,
        State::Null,
        State::Ready,
        State::VoidPending,
    ).unwrap();
    assert_eq!(s.type_label(), "state-changed");
    assert_eq!(s.parse(&mut eng).ty(), MessageKind::StateChanged);
}

#[test]
fn seqnum_timestamp_and_src() {
    let mut eng = Engine::new();
    let h = eng.allocate(Content::ObjectInfo {
        name: "pipeline0".to_string(),
        parent: NULL_HANDLE,
    });
    let src = Object::new(h).unwrap();

    let m1 = Message::new_eos(&mut eng, Some(&src)).unwrap();
    let m2 = Message::new_eos(&mut eng, Some(&src)).unwrap();
    assert_eq!(m1.seqnum(&eng), 1);
    assert_eq!(m2.seqnum(&eng), 2);
    assert_eq!(m1.timestamp(&eng), u64::MAX);
    assert_eq!(m1.src(&eng), h);
    assert_eq!(m1.src_name(&eng), "pipeline0");

    let mut m1 = m1;
    m1.set_seqnum(&mut eng, 99);
    assert_eq!(m1.seqnum(&eng), 99);
    assert_eq!(m1.src_name(&eng), "pipeline0");
}

#[test]
fn writability_follows_sharing() {
    let mut eng = Engine::new();
    let m = Message::new_eos(&mut eng, None).unwrap();
    let h = m.gst_message();
    assert!(m.is_writable(&eng));

    // Exclusively owned: the same message comes back, untouched.
    let w = m.make_writable(&mut eng).unwrap();
    assert_eq!(w.gst_message(), h);
    assert_eq!(eng.count_of(h), 1);
    assert!(w.is_writable(&eng));

    // Shared: the held reference is released and a private copy with a
    // count of one comes back; the other owner keeps the original.
    let alias = Message::new(&mut eng, w.gst_message()).unwrap();
    assert!(!alias.is_writable(&eng));
    let w2 = w.make_writable(&mut eng).unwrap();
    assert_ne!(w2.gst_message(), h);
    assert!(w2.is_writable(&eng));
    assert_eq!(eng.count_of(h), 1);
    alias.unref(&mut eng);
    assert_eq!(eng.count_of(h), 0);
}

#[test]
fn reference_keeps_the_kind() {
    let mut eng = Engine::new();
    let m = Message::new_buffering(&mut eng, None, 3).unwrap();
    let alias = m.reference(&mut eng);
    assert_eq!(alias.gst_message(), m.gst_message());
    assert_eq!(alias.ty(), MessageKind::Buffering);
    assert_eq!(eng.count_of(m.gst_message()), 2);
    alias.unref(&mut eng);
}

#[test]
fn new_wraps_by_recorded_kind() {
    let mut eng = Engine::new();
    let m = Message::new_buffering(&mut eng, None, 10).unwrap();
    let h = m.gst_message();
    assert_eq!(eng.count_of(h), 1);
    let again = Message::new(&mut eng, h).unwrap();
    assert_eq!(eng.count_of(h), 2);
    assert!(matches!(again, Message::Buffering(_)));
    assert!(Message::new(&mut eng, NULL_HANDLE).is_none());
    again.unref(&mut eng);
}

#[test]
fn structure_name_of_application_messages() {
    let mut eng = Engine::new();
    let m = Message::new_application(&mut eng, None, "seek-request").unwrap();
    assert_eq!(m.structure(&eng).unwrap(), "seek-request");
    let e = Message::new_eos(&mut eng, None).unwrap();
    assert!(e.structure(&eng).is_none());
}

#[test]
fn error_values_compare_by_their_triple() {
    let a = Error::new(3, -1, "bad");
    let b = a.duplicate();
    assert_eq!(a, b);
    let c = Error::new(3, -2, "bad");
    assert_ne!(a, c);
    assert_eq!(a.message(), "bad");
}
