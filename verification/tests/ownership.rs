use gst::Handle;
use gst::Transfer;
use gst::buffer::Buffer;
use gst::engine::{Content, Engine, LockMode, NULL_HANDLE};
use gst::miniobject::MiniObject;
use gst::object::Object;
use gst::reference::{Ref, Reference};

fn object_handle(eng: &mut Engine, name: &str) -> usize {
    eng.allocate(Content::ObjectInfo { name: name.to_string(), parent: NULL_HANDLE })
}

#[test]
fn refcount_balance_round_trip() {
    let mut eng = Engine::new();
    let h = object_handle(&mut eng, "pipeline0");
    let obj = Object::new(h).unwrap();
    assert_eq!(obj.refcount(&eng), 1);

    let borrowed = Object::from_borrowed(&mut eng, h).unwrap();
    assert_eq!(obj.refcount(&eng), 2);
    let r1 = Ref::new(&borrowed, &mut eng);
    assert_eq!(obj.refcount(&eng), 3);
    let r2 = r1.duplicate(&mut eng);
    assert_eq!(obj.refcount(&eng), 4);

    r2.unref(&mut eng);
    r1.unref(&mut eng);
    borrowed.unref(&mut eng);
    assert_eq!(obj.refcount(&eng), 1);
}

#[test]
fn from_borrowed_null_handle_gives_none() {
    let mut eng = Engine::new();
    assert!(MiniObject::from_borrowed(&mut eng, NULL_HANDLE).is_none());
    assert!(MiniObject::new_from_gst_miniobject(NULL_HANDLE).is_none());
    assert!(Object::new(NULL_HANDLE).is_none());
}

#[test]
fn transfer_gives_handle_without_release() {
    let mut eng = Engine::new();
    let b = Buffer::create(&mut eng, vec![1u8, 2, 3]);
    let h = b.gst_buffer();
    assert_eq!(eng.count_of(h), 1);
    let transferred = b.transfer();
    assert_eq!(transferred, h);
    // The reference moved out with the handle: the count is untouched.
    assert_eq!(eng.count_of(h), 1);
}

#[test]
fn reference_is_aliasing_not_copying() {
    let mut eng = Engine::new();
    let h = eng.allocate(Content::Inert);
    let mo = MiniObject::new_from_gst_miniobject(h).unwrap();
    let alias = mo.reference(&mut eng);
    assert_eq!(alias.gst_miniobject(), h);
    assert_eq!(eng.count_of(h), 2);
    alias.unref(&mut eng);
    assert_eq!(eng.count_of(h), 1);
    mo.unref(&mut eng);
    assert_eq!(eng.count_of(h), 0);
}

#[test]
fn make_writable_keeps_exclusive_object() {
    let mut eng = Engine::new();
    let h = eng.allocate(Content::Inert);
    let mo = MiniObject::new_from_gst_miniobject(h).unwrap();
    let w = mo.make_writable(&mut eng);
    assert_eq!(w.gst_miniobject(), h);
    assert_eq!(eng.count_of(h), 1);
}

#[test]
fn make_writable_copies_shared_object() {
    let mut eng = Engine::new();
    let h = eng.allocate(Content::Bytes { data: vec![7u8, 8] });
    let mo = MiniObject::new_from_gst_miniobject(h).unwrap();
    let alias = mo.reference(&mut eng);
    assert_eq!(eng.count_of(h), 2);

    let w = alias.make_writable(&mut eng);
    let fresh = w.gst_miniobject();
    assert_ne!(fresh, h);
    assert_eq!(eng.count_of(fresh), 1);
    assert_eq!(eng.count_of(h), 1);
    match eng.content_ref(fresh) {
        Content::Bytes { data } => assert_eq!(data.as_slice(), &[7u8, 8]),
        _ => panic!("copy lost its bytes"),
    }
}

#[test]
fn lock_denied_while_held_and_released_after() {
    let mut eng = Engine::new();
    let h = eng.allocate(Content::Inert);
    let mo = MiniObject::new_from_gst_miniobject(h).unwrap();

    assert!(mo.lock(&mut eng, LockMode::Read, |_m: &MiniObject| {}));

    // Hold the lock from outside: the scoped acquisition is denied and
    // has no side effect.
    assert!(eng.try_lock(h, LockMode::Write));
    assert!(!mo.lock(&mut eng, LockMode::Read, |_m: &MiniObject| {}));
    eng.unlock(h);

    // Released again: a further acquisition succeeds.
    assert!(mo.lock(&mut eng, LockMode::Exclusive, |_m: &MiniObject| {}));
}

#[test]
fn object_names_and_flags() {
    let mut eng = Engine::new();
    let h = object_handle(&mut eng, "sink0");
    let mut obj = Object::new(h).unwrap();
    assert_eq!(obj.name(&eng), "sink0");
    assert!(obj.set_name(&mut eng, "renamed"));
    assert_eq!(obj.name(&eng), "renamed");

    obj.set_flag(&mut eng, 0b1010);
    assert_eq!(obj.flags(&eng), 0b1010);
    assert!(obj.is_flag_set(&eng, 0b1000));
    assert!(!obj.is_flag_set(&eng, 0b0100));
    obj.unset_flag(&mut eng, 0b0010);
    assert_eq!(obj.flags(&eng), 0b1000);
}

#[test]
fn parent_holds_a_reference_on_the_child() {
    let mut eng = Engine::new();
    let hp = object_handle(&mut eng, "bin0");
    let hc = object_handle(&mut eng, "element0");
    let parent = Object::new(hp).unwrap();
    let mut child = Object::new(hc).unwrap();

    assert_eq!(child.refcount(&eng), 1);
    assert!(child.set_parent(&mut eng, &parent));
    assert_eq!(child.refcount(&eng), 2);
    // A second parent is refused, with no side effect.
    assert!(!child.set_parent(&mut eng, &parent));
    assert_eq!(child.refcount(&eng), 2);

    let got = child.parent(&mut eng).unwrap();
    assert_eq!(got.get().gst_object(), hp);
    assert_eq!(eng.count_of(hp), 2);
    got.unref(&mut eng);

    child.unparent(&mut eng);
    assert_eq!(child.refcount(&eng), 1);
}

#[test]
fn duplicate_is_a_deep_copy() {
    let mut eng = Engine::new();
    let h = eng.allocate(Content::Bytes { data: vec![4u8, 5] });
    let mo = MiniObject::new_from_gst_miniobject(h).unwrap();
    let copy = mo.duplicate(&mut eng);
    let ch = copy.gst_miniobject();
    assert_ne!(ch, h);
    assert_eq!(eng.count_of(h), 1);
    assert_eq!(eng.count_of(ch), 1);
    match eng.content_ref(ch) {
        Content::Bytes { data } => assert_eq!(data.as_slice(), &[4u8, 5]),
        _ => panic!("copy lost its bytes"),
    }
}
