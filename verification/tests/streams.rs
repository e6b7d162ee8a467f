use gst::TryRecvError;
use gst::appsink::AppSink;
use gst::appsrc::AppSrc;
use gst::buffer::Buffer;
use gst::caps::Caps;
use gst::engine::Engine;
use gst::flow::FlowReturn;
use gst::mainloop::MainLoop;
use gst::mapinfo::MapInfo;
use gst::sample::Sample;

#[test]
fn scenario_push_ten_buffers_then_eos() {
    let mut eng = Engine::new();
    let mut src = AppSrc::new(&mut eng, "producer").unwrap();
    let mut sink = AppSink::new(&mut eng, "consumer").unwrap();

    for i in 0..10u8 {
        let b = Buffer::create(&mut eng, vec![i]);
        assert_eq!(src.push_buffer(&mut eng, b), FlowReturn::FlowOk);
    }
    assert_eq!(src.end_of_stream(), FlowReturn::FlowOk);

    // The pipeline between the two bridges: each queued buffer becomes a
    // sample pulled by the sink's data-ready callback.
    loop {
        match src.pull_buffer() {
            Some(b) => {
                let s = Sample::create(&mut eng, &b, None);
                b.unref(&mut eng);
                assert_eq!(sink.deliver_sample(&mut eng, Some(s)), FlowReturn::FlowOk);
            },
            None => break,
        }
    }
    sink.deliver_eos();

    for _ in 0..10 {
        let got = sink.recv().unwrap();
        assert!(got.is_sample());
        assert!(!got.is_eos());
    }
    let last = sink.recv().unwrap();
    assert!(last.is_eos());
    assert!(matches!(sink.try_recv(), Err(TryRecvError::Empty)));
}

#[test]
fn abandoned_consumer_turns_delivery_into_eos() {
    let mut eng = Engine::new();
    let mut sink = AppSink::new(&mut eng, "consumer").unwrap();
    let b = Buffer::create(&mut eng, vec![1u8]);
    let s = Sample::create(&mut eng, &b, None);
    b.unref(&mut eng);
    let sh = s.gst_sample();

    sink.disconnect();
    assert_eq!(sink.deliver_sample(&mut eng, Some(s)), FlowReturn::Eos);
    // The undeliverable sample was released, not leaked into the queue.
    assert_eq!(eng.count_of(sh), 0);
}

#[test]
fn failed_pull_answers_eos() {
    let mut eng = Engine::new();
    let mut sink = AppSink::new(&mut eng, "consumer").unwrap();
    assert_eq!(sink.deliver_sample(&mut eng, None), FlowReturn::Eos);
    assert_eq!(sink.deliver_preroll(&mut eng, None), FlowReturn::Eos);
    assert!(matches!(sink.try_recv(), Err(TryRecvError::Empty)));
}

#[test]
fn preroll_and_sample_keep_their_tags() {
    let mut eng = Engine::new();
    let mut sink = AppSink::new(&mut eng, "consumer").unwrap();
    let b = Buffer::create(&mut eng, vec![1u8]);
    let s1 = Sample::create(&mut eng, &b, None);
    let s2 = Sample::create(&mut eng, &b, None);
    b.unref(&mut eng);
    assert_eq!(sink.deliver_preroll(&mut eng, Some(s1)), FlowReturn::FlowOk);
    assert_eq!(sink.deliver_sample(&mut eng, Some(s2)), FlowReturn::FlowOk);
    assert!(sink.recv().unwrap().is_preroll());
    assert!(sink.recv().unwrap().is_sample());
}

#[test]
fn push_after_eos_is_refused_and_released() {
    let mut eng = Engine::new();
    let mut src = AppSrc::new(&mut eng, "producer").unwrap();
    assert_eq!(src.end_of_stream(), FlowReturn::FlowOk);
    assert_eq!(src.end_of_stream(), FlowReturn::Eos);

    let b = Buffer::create(&mut eng, vec![9u8]);
    let h = b.gst_buffer();
    assert_eq!(src.push_buffer(&mut eng, b), FlowReturn::Eos);
    assert_eq!(eng.count_of(h), 0);
    assert!(src.pull_buffer().is_none());
}

#[test]
fn pipeline_pulls_in_push_order() {
    let mut eng = Engine::new();
    let mut src = AppSrc::new(&mut eng, "producer").unwrap();
    for i in 0..3u8 {
        let b = Buffer::create(&mut eng, vec![i]);
        src.push_buffer(&mut eng, b);
    }
    for i in 0..3u8 {
        let b = src.pull_buffer().unwrap();
        let r = b.map_read(&eng, |info: MapInfo| info.byte_at(0)).unwrap();
        assert_eq!(r, i);
        b.unref(&mut eng);
    }
}

#[test]
fn sample_hands_out_independent_references() {
    let mut eng = Engine::new();
    let b = Buffer::create(&mut eng, vec![5u8, 6]);
    let c = Caps::from_string(&mut eng, "video/x-raw").unwrap();
    let s = Sample::create(&mut eng, &b, Some(&c));
    let bh = b.gst_buffer();
    assert_eq!(eng.count_of(bh), 2);

    let got = s.buffer(&mut eng).unwrap();
    assert_eq!(got.gst_buffer(), bh);
    assert_eq!(eng.count_of(bh), 3);
    got.unref(&mut eng);

    let got_caps = s.caps(&mut eng).unwrap();
    assert_eq!(got_caps.to_string(&eng), "video/x-raw");
    got_caps.unref(&mut eng);
}

#[test]
fn buffer_mapping_reads_and_writes_back() {
    let mut eng = Engine::new();
    let mut b = Buffer::create(&mut eng, vec![1u8, 2, 3]);
    assert_eq!(b.size(&eng), 3);

    let total = b.map_read(&eng, |info: MapInfo| {
        let mut sum: u32 = 0;
        let mut i: usize = 0;
        while i < info.size() {
            sum += info.byte_at(i) as u32;
            i += 1;
        }
        sum
    }).unwrap();
    assert_eq!(total, 6);

    b.map_write(&mut eng, |mut info: MapInfo| {
        info.data_mut().push(9);
        (info, ())
    }).unwrap();
    assert_eq!(b.size(&eng), 4);
    let last = b.map_read(&eng, |info: MapInfo| info.byte_at(3)).unwrap();
    assert_eq!(last, 9);
}

#[test]
fn caps_descriptions() {
    let mut eng = Engine::new();
    let e = Caps::new_empty(&mut eng).unwrap();
    assert_eq!(e.to_string(&eng), "EMPTY");
    let a = Caps::new_any(&mut eng).unwrap();
    assert_eq!(a.to_string(&eng), "ANY");
    let s = Caps::new_empty_simple(&mut eng, "audio/x-raw").unwrap();
    assert_eq!(s.to_string(&eng), "audio/x-raw");
    assert!(s.is_writable(&eng));
}

#[test]
fn main_loop_quit_is_idempotent() {
    let mut l = MainLoop::new();
    assert!(!l.running());
    l.quit();
    assert!(!l.running());
    l.run();
    assert!(l.running());
    l.quit();
    assert!(!l.running());
    l.quit();
    assert!(!l.running());
}

#[test]
fn nothing_is_forwarded_after_end_of_stream() {
    let mut eng = Engine::new();
    let mut sink = AppSink::new(&mut eng, "consumer").unwrap();
    sink.deliver_eos();

    // A late unit is refused with the end-of-stream code and released.
    let b = Buffer::create(&mut eng, vec![1u8]);
    let s = Sample::create(&mut eng, &b, None);
    b.unref(&mut eng);
    let sh = s.gst_sample();
    assert_eq!(sink.deliver_sample(&mut eng, Some(s)), FlowReturn::Eos);
    assert_eq!(eng.count_of(sh), 0);
    // A second end-of-stream is not forwarded either.
    sink.deliver_eos();

    let last = sink.recv().unwrap();
    assert!(last.is_eos());
    assert!(matches!(sink.try_recv(), Err(TryRecvError::Empty)));
}

#[test]
fn end_of_stream_with_abandoned_consumer_is_dropped_quietly() {
    let mut eng = Engine::new();
    let mut sink = AppSink::new(&mut eng, "consumer").unwrap();
    sink.disconnect();
    sink.deliver_eos();
    assert!(matches!(sink.try_recv(), Err(TryRecvError::Empty)));

    let b = Buffer::create(&mut eng, vec![2u8]);
    let s = Sample::create(&mut eng, &b, None);
    b.unref(&mut eng);
    assert_eq!(sink.deliver_sample(&mut eng, Some(s)), FlowReturn::Eos);
}

#[test]
fn lock_runs_the_critical_section_on_success() {
    let mut eng = Engine::new();
    let h = eng.allocate(gst::engine::Content::Inert);
    let mo = gst::miniobject::MiniObject::new_from_gst_miniobject(h).unwrap();

    let mut ran = false;
    assert!(mo.lock(&mut eng, gst::engine::LockMode::Read, |_m| ran = true));
    assert!(ran);

    // Denied: the section is never run.
    let mut ran_denied = false;
    assert!(eng.try_lock(h, gst::engine::LockMode::Write));
    assert!(!mo.lock(&mut eng, gst::engine::LockMode::Read, |_m| ran_denied = true));
    assert!(!ran_denied);
    eng.unlock(h);
}
