use riv::client::{Requester, Step, Timer, MIN_LOOP_MS};
use riv::packet::{EncodeError, RivPacket, CODE_ACK, CODE_ERR, CODE_OK, MAX_NAME_LENGTH};

fn reply(code: u8, color: u32, name: &str) -> Vec<u8> {
    RivPacket::with_code(code, color, name).unwrap().into_inner()
}

#[test]
fn zero_timeout_makes_no_attempt() {
    assert!(matches!(Requester::new(0, 1, "a.png", 0), Ok(None)));
    let long = "n".repeat(MAX_NAME_LENGTH + 1);
    assert!(matches!(Requester::new(0, 1, &long, 0), Ok(None)));
    assert!(matches!(Requester::new(1000, 1, &long, 0), Err(EncodeError::NameTooLong)));
}

#[test]
fn silence_gives_up_after_the_timeout() {
    let mut q = Requester::new(1000, 5, "a.png", 0).unwrap().unwrap();
    assert_eq!(*q.request(), RivPacket::new(5, "a.png").unwrap().into_inner());
    let mut now = 0u64;
    let mut sends = 0;
    while q.pending() {
        sends += 1;
        // the receive waited for the whole period
        now += MIN_LOOP_MS;
        assert_eq!(q.on_silence(now), 0);
    }
    assert_eq!(sends, 4);
}

#[test]
fn quick_failures_are_paced() {
    let mut q = Requester::new(1000, 5, "a.png", 0).unwrap().unwrap();
    assert_eq!(q.on_silence(100), 150);
    assert_eq!(q.on_silence(260), 240);
    assert_eq!(q.on_silence(900), 0);
}

#[test]
fn ok_reply_means_remote_success() {
    let mut q = Requester::new(2000, 0xabcdef, "pic.jpg", 0).unwrap().unwrap();
    assert_eq!(q.on_reply(&reply(CODE_OK, 0xabcdef, "pic.jpg"), 10), Step::Done(true));
}

#[test]
fn error_reply_means_remote_failure() {
    let mut q = Requester::new(2000, 0xabcdef, "nope.jpg", 0).unwrap().unwrap();
    assert_eq!(q.on_reply(&reply(CODE_ERR, 0xabcdef, "nope.jpg"), 10), Step::Done(false));
}

#[test]
fn ack_restarts_the_timeout() {
    let mut q = Requester::new(500, 1, "a.png", 0).unwrap().unwrap();
    assert_eq!(q.on_silence(250), 0);
    assert_eq!(q.on_reply(&reply(CODE_ACK, 1, "a.png"), 300), Step::Retry(200));
    // the timeout now counts from 500
    assert_eq!(q.on_silence(750), 0);
    assert!(q.pending());
    assert_eq!(q.on_silence(1000), 0);
    assert!(!q.pending());
}

#[test]
fn unrelated_replies_are_ignored() {
    let mut q = Requester::new(1000, 1, "a.png", 0).unwrap().unwrap();
    assert_eq!(q.on_reply(&reply(CODE_OK, 2, "a.png"), 5), Step::Retry(0));
    assert_eq!(q.on_reply(&reply(CODE_OK, 1, "b.png"), 5), Step::Retry(0));
    assert_eq!(q.on_reply(&RivPacket::new(1, "a.png").unwrap().into_inner(), 5), Step::Retry(0));
    assert_eq!(q.on_reply(b"garbage", 5), Step::Retry(0));
    assert!(q.pending());
    assert_eq!(q.on_reply(&reply(CODE_OK, 1, "a.png"), 5), Step::Done(true));
}

#[test]
fn a_flood_of_unrelated_replies_does_not_stop_the_clock() {
    let mut q = Requester::new(1000, 1, "a.png", 0).unwrap().unwrap();
    for now in [300, 600, 900] {
        assert_eq!(q.on_reply(b"junk", now), Step::Retry(0));
        assert!(q.pending());
    }
    assert_eq!(q.on_reply(&reply(CODE_OK, 1, "other.png"), 1200), Step::Retry(0));
    assert!(!q.pending());
}

#[test]
fn timer_marks() {
    let mut t = Timer::new(40);
    assert_eq!((t.start, t.timer), (40, 40));
    assert_eq!(t.wait_if_too_fast(100, 250), 190);
    assert_eq!(t.timer, 290);
    t.reset();
    assert_eq!((t.start, t.timer), (290, 290));
    t.catch_up(500, 250);
    assert_eq!(t.timer, 290);
    t.catch_up(540, 250);
    assert_eq!(t.timer, 540);
    let mut t = Timer::new(u64::MAX - 1);
    t.wait_if_too_fast(0, 250);
    assert_eq!(t.timer, u64::MAX);
}
