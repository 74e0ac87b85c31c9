use marauder::backoff::Backoff;
use marauder::drawing::{Color, Drawing};
use marauder::replay::{replay, Pass, ReplayEngine, MAX_CAPACITY};
use marauder::room::{ConnState, Event, LinkAction, LinkInput, Payload, RoomSession};
use marauder::share::{ShareLoop, TickPlan};

fn stroke(color: Color) -> Drawing {
    Drawing::new(vec![0, 1, 2], vec![0, 0, 0], vec![2000, 2000, 2000], vec![2, 2, 2], color).unwrap()
}

fn event(payload: Payload) -> LinkInput {
    LinkInput::Received(Event {
        created_at: 17,
        by_user_id: "u2".to_string(),
        in_room_id: "r1".to_string(),
        payload,
    })
}

fn streaming(share: &mut ShareLoop) -> RoomSession {
    let mut s = RoomSession::new("r1".to_string(), "u1".to_string(), 1, 100);
    assert!(matches!(s.step(LinkInput::Open, share), LinkAction::OpenStream));
    assert!(matches!(s.step(LinkInput::Connected, share), LinkAction::Idle));
    assert_eq!(s.state(), ConnState::Streaming);
    s
}

#[test]
fn delays_double_up_to_the_cap() {
    let mut b = Backoff::new(1, 100);
    let got: Vec<u64> = (0..10).map(|_| b.next_delay()).collect();
    assert_eq!(got, vec![1, 2, 4, 8, 16, 32, 64, 100, 100, 100]);
    assert_eq!(b.failures(), 10);
    b.reset();
    assert_eq!(b.failures(), 0);
    assert_eq!(b.next_delay(), 1);
    assert_eq!(b.next_delay(), 2);
}

#[test]
fn delays_with_other_bases() {
    let mut b = Backoff::new(3, 20);
    let got: Vec<u64> = (0..5).map(|_| b.next_delay()).collect();
    assert_eq!(got, vec![3, 6, 12, 20, 20]);
    let mut b = Backoff::new(0, 20);
    assert_eq!(b.next_delay(), 0);
    assert_eq!(b.next_delay(), 0);
    let mut b = Backoff::new(50, 20);
    assert_eq!(b.next_delay(), 20);
    let mut b = Backoff::new(1, u64::MAX);
    let mut last = 0;
    for _ in 0..70 {
        last = b.next_delay();
    }
    assert_eq!(last, u64::MAX);
    let mut b = Backoff::new(1, u64::MAX);
    for _ in 0..63 {
        b.next_delay();
    }
    assert_eq!(b.next_delay(), 1u64 << 63);
}

#[test]
fn a_session_reconnects_with_backoff() {
    let mut share = ShareLoop::new(10).unwrap();
    let mut s = RoomSession::new("r1".to_string(), "u1".to_string(), 1, 4);
    assert_eq!(s.state(), ConnState::Disconnected);
    assert_eq!(s.room_id(), "r1");
    assert_eq!(s.user_id(), "u1");
    assert!(matches!(s.step(LinkInput::Connected, &mut share), LinkAction::Idle));
    assert_eq!(s.state(), ConnState::Disconnected);
    assert!(matches!(s.step(LinkInput::Open, &mut share), LinkAction::OpenStream));
    assert_eq!(s.state(), ConnState::Connecting);
    for want in [1u64, 2, 4, 4] {
        match s.step(LinkInput::ConnectFailed, &mut share) {
            LinkAction::RetryAfter(d) => assert_eq!(d, want),
            _ => panic!("no retry"),
        }
        assert_eq!(s.state(), ConnState::Connecting);
    }
    assert!(matches!(s.step(LinkInput::Connected, &mut share), LinkAction::Idle));
    assert_eq!(s.state(), ConnState::Streaming);
    assert!(matches!(s.step(LinkInput::Closed, &mut share), LinkAction::Idle));
    assert_eq!(s.state(), ConnState::Disconnected);
    assert!(matches!(s.step(LinkInput::Open, &mut share), LinkAction::OpenStream));
    match s.step(LinkInput::ConnectFailed, &mut share) {
        LinkAction::RetryAfter(d) => assert_eq!(d, 1),
        _ => panic!("no retry"),
    }
}

#[test]
fn an_error_on_the_stream_disconnects() {
    let mut share = ShareLoop::new(10).unwrap();
    let mut s = streaming(&mut share);
    assert!(matches!(s.step(LinkInput::Failed, &mut share), LinkAction::Idle));
    assert_eq!(s.state(), ConnState::Disconnected);
    assert!(matches!(s.step(event(Payload::UserJoinedTheRoom), &mut share), LinkAction::Idle));
    assert_eq!(s.presence(), 0);
}

#[test]
fn join_then_leave_returns_to_zero() {
    let mut share = ShareLoop::new(10).unwrap();
    let mut s = streaming(&mut share);
    assert_eq!(s.presence(), 0);
    match s.step(event(Payload::UserJoinedTheRoom), &mut share) {
        LinkAction::Presence { before, after } => assert_eq!((before, after), (0, 1)),
        _ => panic!("no repaint"),
    }
    assert_eq!(s.presence(), 1);
    match s.step(event(Payload::UserLeftTheRoom), &mut share) {
        LinkAction::Presence { before, after } => assert_eq!((before, after), (1, 0)),
        _ => panic!("no repaint"),
    }
    assert_eq!(s.presence(), 0);
}

#[test]
fn a_count_overwrites_the_counter() {
    let mut share = ShareLoop::new(10).unwrap();
    let mut s = streaming(&mut share);
    s.step(event(Payload::UserJoinedTheRoom), &mut share);
    s.step(event(Payload::UserJoinedTheRoom), &mut share);
    match s.step(event(Payload::UsersInTheRoom(5)), &mut share) {
        LinkAction::Presence { before, after } => assert_eq!((before, after), (2, 5)),
        _ => panic!("no repaint"),
    }
    assert_eq!(s.presence(), 5);
    s.step(event(Payload::UsersInTheRoom(0)), &mut share);
    assert_eq!(s.presence(), 0);
    s.step(event(Payload::UserLeftTheRoom), &mut share);
    assert_eq!(s.presence(), u32::MAX);
    s.step(event(Payload::UserJoinedTheRoom), &mut share);
    assert_eq!(s.presence(), 0);
}

#[test]
fn an_unknown_payload_is_passed_over() {
    let mut share = ShareLoop::new(10).unwrap();
    let mut s = streaming(&mut share);
    s.step(event(Payload::UsersInTheRoom(3)), &mut share);
    assert!(matches!(s.step(event(Payload::Unrecognized), &mut share), LinkAction::Idle));
    assert_eq!(s.presence(), 3);
    assert_eq!(s.state(), ConnState::Streaming);
}

#[test]
fn a_sent_drawing_arrives_identical_and_marks_the_canvas() {
    let mut share_a = ShareLoop::new(10).unwrap();
    let a = streaming(&mut share_a);
    let sent = stroke(Color::Black);
    let out = a.outgoing(sent.clone());
    assert_eq!(out.room_ids, vec!["r1".to_string()]);
    assert_eq!(out.user_id, "u1");
    assert_eq!(out.event.created_at, 0);
    assert_eq!(out.event.by_user_id, "");
    assert_eq!(out.event.in_room_id, "");

    let mut share_b = ShareLoop::new(10).unwrap();
    let mut b = streaming(&mut share_b);
    share_b.uploaded(1, true);
    assert!(!share_b.needs_sharing());
    match b.step(LinkInput::Received(out.event), &mut share_b) {
        LinkAction::Paint(d) => {
            assert_eq!(d, sent);
            let segments = d.segments();
            assert_eq!(segments.len(), 1);
            assert_eq!(
                segments[0].footprint,
                marauder::rect::DirtyRect::Area { left: 0, top: 0, width: 2, height: 0 }
            );
        }
        _ => panic!("not painted"),
    }
    assert!(share_b.needs_sharing());
}

#[test]
fn presence_events_do_not_mark_the_canvas() {
    let mut share = ShareLoop::new(10).unwrap();
    let mut s = streaming(&mut share);
    share.uploaded(1, true);
    s.step(event(Payload::UserJoinedTheRoom), &mut share);
    s.step(event(Payload::UsersInTheRoom(4)), &mut share);
    s.step(event(Payload::Unrecognized), &mut share);
    assert!(!share.needs_sharing());
}

#[test]
fn an_unchanged_canvas_is_uploaded_on_the_tenth_tick_only() {
    let pixels = [7u8; 64];
    let mut share = ShareLoop::new(10).unwrap();
    assert!(share.needs_sharing());
    assert_eq!(share.tick(), TickPlan::Inspect { forced: false });
    let sum = share.inspect(false, &pixels).unwrap();
    share.uploaded(sum, true);
    assert!(!share.needs_sharing());
    assert_eq!(share.last_uploaded(), Some(sum));

    let mut share = ShareLoop::new(10).unwrap();
    share.uploaded(sum, true);
    for _ in 1..=9 {
        assert_eq!(share.tick(), TickPlan::Skip);
    }
    assert_eq!(share.tick(), TickPlan::Inspect { forced: true });
    assert_eq!(share.inspect(true, &pixels), Some(sum));
    share.uploaded(sum, true);
    for _ in 1..=9 {
        assert_eq!(share.tick(), TickPlan::Skip);
    }
    assert_eq!(share.tick(), TickPlan::Inspect { forced: true });
}

#[test]
fn a_marked_but_unchanged_canvas_is_not_uploaded() {
    let pixels = [1u8, 2, 3];
    let mut share = ShareLoop::new(100).unwrap();
    let sum = share.inspect(false, &pixels).unwrap();
    share.uploaded(sum, true);
    share.mark();
    assert_eq!(share.tick(), TickPlan::Inspect { forced: false });
    assert_eq!(share.inspect(false, &pixels), None);
    assert!(!share.needs_sharing());
    share.mark();
    assert_eq!(share.inspect(false, &[1u8, 2, 4]).is_some(), true);
    assert!(share.needs_sharing());
}

#[test]
fn a_failed_upload_is_tried_again() {
    let pixels = [9u8; 10];
    let mut share = ShareLoop::new(100).unwrap();
    let sum = share.inspect(false, &pixels).unwrap();
    share.uploaded(sum, true);
    share.uploaded(sum, false);
    assert!(share.needs_sharing());
    assert_eq!(share.last_uploaded(), None);
    assert_eq!(share.tick(), TickPlan::Inspect { forced: false });
    assert_eq!(share.inspect(false, &pixels), Some(sum));
}

#[test]
fn decide_compares_with_the_last_upload() {
    let mut share = ShareLoop::new(3).unwrap();
    assert!(share.decide(false, 0));
    share.uploaded(0, true);
    assert!(!share.decide(false, 0));
    assert!(share.decide(true, 0));
    assert!(share.decide(false, 1));
}

#[test]
fn the_checksum_is_crc32() {
    let mut share = ShareLoop::new(1).unwrap();
    assert_eq!(share.inspect(false, b"123456789"), Some(0xCBF43926));
    assert_eq!(share.inspect(true, b""), Some(0));
}

#[test]
fn a_period_of_zero_is_refused() {
    assert!(ShareLoop::new(0).is_none());
    let mut share = ShareLoop::new(1).unwrap();
    share.uploaded(5, true);
    assert_eq!(share.tick(), TickPlan::Inspect { forced: true });
    assert_eq!(share.tick(), TickPlan::Inspect { forced: true });
}

#[test]
fn a_ring_of_two_erases_the_oldest_of_three() {
    let strokes = vec![stroke(Color::Black), stroke(Color::Black), stroke(Color::Black)];
    let passes = replay(&strokes, 2).unwrap();
    assert_eq!(
        passes,
        vec![
            Pass::Draw(0),
            Pass::Draw(1),
            Pass::Draw(2),
            Pass::Erase(0),
            Pass::Erase(1),
            Pass::Erase(2)
        ]
    );
}

#[test]
fn only_black_strokes_enter_the_ring() {
    let strokes = vec![
        stroke(Color::Black),
        stroke(Color::White),
        stroke(Color::Invisible),
        stroke(Color::Black),
        stroke(Color::White),
        stroke(Color::Black),
    ];
    let passes = replay(&strokes, 1).unwrap();
    assert_eq!(
        passes,
        vec![
            Pass::Draw(0),
            Pass::Draw(1),
            Pass::Draw(2),
            Pass::Draw(3),
            Pass::Erase(0),
            Pass::Draw(4),
            Pass::Draw(5),
            Pass::Erase(3),
            Pass::Erase(5)
        ]
    );
}

#[test]
fn a_roomy_ring_erases_at_the_end_only() {
    let strokes: Vec<Drawing> = (0..5).map(|_| stroke(Color::Black)).collect();
    let passes = replay(&strokes, 37).unwrap();
    let mut want: Vec<Pass> = (0..5).map(Pass::Draw).collect();
    want.extend((0..5).map(Pass::Erase));
    assert_eq!(passes, want);
    assert_eq!(replay(&Vec::new(), 3).unwrap(), Vec::<Pass>::new());
}

#[test]
fn a_ring_wraps_many_times() {
    let strokes: Vec<Drawing> = (0..20).map(|_| stroke(Color::Black)).collect();
    let passes = replay(&strokes, 3).unwrap();
    let mut want: Vec<Pass> = Vec::new();
    for i in 0..20 {
        want.push(Pass::Draw(i));
        if i >= 3 {
            want.push(Pass::Erase(i - 3));
        }
    }
    want.extend([Pass::Erase(17), Pass::Erase(18), Pass::Erase(19)]);
    assert_eq!(passes, want);
}

#[test]
fn a_ring_of_no_slots_is_refused() {
    let strokes = vec![stroke(Color::Black)];
    assert!(replay(&strokes, 0).is_none());
    assert!(replay(&Vec::new(), 0).is_none());
}

#[test]
fn a_ring_is_no_larger_than_the_record() {
    let strokes: Vec<Drawing> = (0..4).map(|_| stroke(Color::Black)).collect();
    let mut want: Vec<Pass> = (0..4).map(Pass::Draw).collect();
    want.extend((0..4).map(Pass::Erase));
    for capacity in [4, 5, 65536, 65537, MAX_CAPACITY, MAX_CAPACITY + 1, usize::MAX] {
        assert_eq!(replay(&strokes, capacity).unwrap(), want);
    }
    assert_eq!(replay(&Vec::new(), usize::MAX).unwrap(), Vec::<Pass>::new());
    assert_eq!(MAX_CAPACITY, usize::MAX / 32 + 1);
}

#[test]
fn a_pass_names_the_stroke_to_paint() {
    let strokes = vec![stroke(Color::Black), stroke(Color::Invisible)];
    assert_eq!(Pass::Draw(1).stroke(&strokes).unwrap(), strokes[1]);
    let erased = Pass::Erase(0).stroke(&strokes).unwrap();
    assert_eq!(erased.color(), Color::White);
    assert_eq!(erased.xs(), strokes[0].xs());
    assert!(Pass::Draw(2).stroke(&strokes).is_none());
    assert!(Pass::Erase(2).stroke(&strokes).is_none());
}

#[test]
fn a_stroke_that_is_no_drawing_is_passed_over() {
    let good = Payload::from_parts(vec![0, 1, 2], vec![0, 0, 0], vec![5, 5, 5], vec![2, 2, 2], Color::White);
    match good {
        Payload::Drawing(d) => {
            assert_eq!(d.xs(), &vec![0, 1, 2]);
            assert_eq!(d.color(), Color::White);
        }
        _ => panic!("no drawing"),
    }
    let short = Payload::from_parts(vec![0, 1], vec![0, 0], vec![5, 5], vec![2, 2], Color::Black);
    assert!(matches!(short, Payload::Unrecognized));
    let uneven = Payload::from_parts(vec![0, 1, 2], vec![0, 0, 0], vec![5, 5], vec![2, 2, 2], Color::Black);
    assert!(matches!(uneven, Payload::Unrecognized));
    let mut share = ShareLoop::new(10).unwrap();
    let mut s = streaming(&mut share);
    share.uploaded(1, true);
    let uneven = Payload::from_parts(vec![0, 1, 2], vec![0, 0, 0], vec![5, 5], vec![2, 2, 2], Color::Black);
    assert!(matches!(s.step(event(uneven), &mut share), LinkAction::Idle));
    assert!(!share.needs_sharing());
}

fn fed_one_by_one(colors: &[Color], capacity: usize) -> Vec<Pass> {
    let mut engine = ReplayEngine::new(capacity).unwrap();
    let mut passes = Vec::new();
    for (i, c) in colors.iter().enumerate() {
        assert_eq!(engine.fed(), i);
        passes.extend(engine.feed(*c));
    }
    passes.extend(engine.finish());
    passes
}

#[test]
fn strokes_fed_one_by_one_replay_as_the_whole_record() {
    let b = Color::Black;
    assert_eq!(
        fed_one_by_one(&[b, b, b], 2),
        vec![
            Pass::Draw(0),
            Pass::Draw(1),
            Pass::Draw(2),
            Pass::Erase(0),
            Pass::Erase(1),
            Pass::Erase(2)
        ]
    );
    let mixed = [b, Color::White, b, b, Color::Invisible, b, b, Color::White, b];
    for capacity in 1..12 {
        let strokes: Vec<Drawing> = mixed.iter().map(|c| stroke(*c)).collect();
        assert_eq!(fed_one_by_one(&mixed, capacity), replay(&strokes, capacity).unwrap());
    }
    assert_eq!(fed_one_by_one(&[], 3), Vec::<Pass>::new());
}

#[test]
fn an_engine_needs_a_ring() {
    assert!(ReplayEngine::new(0).is_none());
    assert!(ReplayEngine::new(MAX_CAPACITY + 1).is_none());
    assert!(ReplayEngine::new(usize::MAX).is_none());
    let mut engine = ReplayEngine::new(1).unwrap();
    assert_eq!(engine.feed(Color::White), vec![Pass::Draw(0)]);
    assert_eq!(engine.feed(Color::Black), vec![Pass::Draw(1)]);
    assert_eq!(engine.feed(Color::Black), vec![Pass::Draw(2), Pass::Erase(1)]);
    assert_eq!(engine.finish(), vec![Pass::Erase(2)]);
}
