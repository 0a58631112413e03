use minimio::clamp_timeout;
use minimio::events::Events;
use minimio::poll_outcome;
use minimio::unix::max_events;
use minimio::unix::os_error;
use minimio::unix::Reply;
use minimio::unix::EINTR;
use minimio::Error;
use minimio::ErrorKind;
use minimio::Interests;
use minimio::PollStep;
use minimio::TokenAllocator;

#[test]
fn readable_is_readable_only() {
    let interests = Interests::readable();
    assert!(interests.is_readable());
    assert!(!interests.is_writable());
}

#[test]
fn writable_is_writable_only() {
    let interests = Interests::writable();
    assert!(!interests.is_readable());
    assert!(interests.is_writable());
}

#[test]
fn union_asks_for_both() {
    let both = Interests::readable().union(Interests::writable());
    assert!(both.is_readable());
    assert!(both.is_writable());
    let same = Interests::readable().union(Interests::readable());
    assert!(same.is_readable());
    assert!(!same.is_writable());
}

#[test]
fn error_kinds() {
    assert_eq!(Error::Os { code: 9 }.kind(), ErrorKind::Os);
    assert_eq!(Error::Signal { code: 4 }.kind(), ErrorKind::Interrupted);
    assert_eq!(Error::PollClosed.kind(), ErrorKind::Interrupted);
    assert_eq!(Error::InstanceClosed.kind(), ErrorKind::Interrupted);
    assert_eq!(Error::InstanceDead.kind(), ErrorKind::Interrupted);
    assert_eq!(Error::Unimplemented.kind(), ErrorKind::Unimplemented);
}

#[test]
fn error_is_interrupted() {
    assert!(!Error::Os { code: 9 }.is_interrupted());
    assert!(Error::Signal { code: 4 }.is_interrupted());
    assert!(Error::PollClosed.is_interrupted());
    assert!(Error::InstanceClosed.is_interrupted());
    assert!(Error::InstanceDead.is_interrupted());
    assert!(!Error::Unimplemented.is_interrupted());
}

#[test]
fn error_keeps_the_code() {
    assert_eq!(Error::Os { code: 9 }.raw_os_error(), Some(9));
    assert_eq!(Error::Signal { code: 4 }.raw_os_error(), Some(4));
    assert_eq!(Error::PollClosed.raw_os_error(), None);
    assert_eq!(Error::InstanceClosed.raw_os_error(), None);
    assert_eq!(Error::InstanceDead.raw_os_error(), None);
    assert_eq!(Error::Unimplemented.raw_os_error(), None);
}

#[test]
fn error_messages() {
    assert_eq!(Error::Os { code: 9 }.message(), "operating system error");
    assert_eq!(Error::Signal { code: 4 }.message(), "interrupted system call");
    assert_eq!(Error::PollClosed.message(), "Poll closed.");
    assert_eq!(Error::InstanceClosed.message(), "Poll instance closed.");
    assert_eq!(Error::InstanceDead.message(), "Poll instance is dead.");
    assert_eq!(Error::Unimplemented.message(), "not implemented");
}

#[test]
fn negative_timeout_counts_as_zero() {
    assert_eq!(clamp_timeout(Some(-1)), Some(0));
    assert_eq!(clamp_timeout(Some(i32::MIN)), Some(0));
}

#[test]
fn other_timeouts_pass_through() {
    assert_eq!(clamp_timeout(None), None);
    assert_eq!(clamp_timeout(Some(0)), Some(0));
    assert_eq!(clamp_timeout(Some(50)), Some(50));
    assert_eq!(clamp_timeout(Some(i32::MAX)), Some(i32::MAX));
}

#[test]
fn interrupted_wait_is_retried() {
    assert_eq!(poll_outcome(Err(Error::Signal { code: 4 }), false, 0), PollStep::Retry);
    assert_eq!(poll_outcome(Err(Error::Signal { code: 4 }), true, 0), PollStep::Retry);
}

#[test]
fn failed_wait_is_passed_on() {
    assert_eq!(
        poll_outcome(Err(Error::Os { code: 9 }), false, 0),
        PollStep::Done(Err(Error::Os { code: 9 }))
    );
    assert_eq!(
        poll_outcome(Err(Error::Os { code: 9 }), true, 0),
        PollStep::Done(Err(Error::Os { code: 9 }))
    );
}

#[test]
fn poll_on_closed_instance_is_interrupted() {
    assert_eq!(poll_outcome(Ok(()), true, 3), PollStep::Done(Err(Error::PollClosed)));
}

#[test]
fn poll_reports_the_number_of_events() {
    assert_eq!(poll_outcome(Ok(()), false, 3), PollStep::Done(Ok(3)));
    assert_eq!(poll_outcome(Ok(()), false, 0), PollStep::Done(Ok(0)));
}

#[test]
fn tokens_start_at_zero_and_count_up() {
    let mut tokens = TokenAllocator::new();
    assert_eq!(tokens.allocate(), 0);
    assert_eq!(tokens.allocate(), 1);
    assert_eq!(tokens.allocate(), 2);
}

#[test]
fn tokens_strictly_increase() {
    let mut tokens = TokenAllocator::new();
    let mut last = tokens.allocate();
    for _ in 0..1000 {
        let next = tokens.allocate();
        assert!(next > last);
        last = next;
    }
}

#[test]
fn events_start_empty() {
    let events: Events<u32> = Events::with_capacity(4);
    assert_eq!(events.capacity(), 4);
    assert_eq!(events.len(), 0);
    assert!(events.is_empty());
    assert_eq!(events.get(0), None);
    assert!(events.as_slice().is_empty());
}

#[test]
fn events_take_what_was_reported() {
    let mut events: Events<u32> = Events::with_capacity(4);
    events.fill(vec![7, 8, 9], 2);
    assert_eq!(events.as_slice(), &[7, 8]);
    assert_eq!(events.len(), 2);
    assert!(!events.is_empty());
    assert_eq!(events.get(0), Some(&7));
    assert_eq!(events.get(1), Some(&8));
    assert_eq!(events.get(2), None);
    assert_eq!(events.capacity(), 4);
}

#[test]
fn events_never_exceed_their_capacity() {
    let mut events: Events<u32> = Events::with_capacity(2);
    events.fill(vec![1, 2, 3, 4, 5], 5);
    assert_eq!(events.as_slice(), &[1, 2]);
    assert_eq!(events.capacity(), 2);
    events.fill(vec![1, 2, 3, 4, 5], usize::MAX);
    assert_eq!(events.len(), 2);
}

#[test]
fn events_never_hold_more_than_was_written() {
    let mut events: Events<u32> = Events::with_capacity(8);
    events.fill(vec![1, 2], 5);
    assert_eq!(events.as_slice(), &[1, 2]);
}

#[test]
fn events_with_no_room_stay_empty() {
    let mut events: Events<u32> = Events::with_capacity(0);
    events.fill(vec![1, 2], 2);
    assert!(events.is_empty());
}

#[test]
fn events_fill_replaces() {
    let mut events: Events<u32> = Events::with_capacity(4);
    events.fill(vec![1, 2, 3], 3);
    events.fill(vec![9], 1);
    assert_eq!(events.as_slice(), &[9]);
}

#[test]
fn events_clear_keeps_the_capacity() {
    let mut events: Events<u32> = Events::with_capacity(4);
    events.fill(vec![1, 2, 3], 3);
    events.clear();
    assert!(events.is_empty());
    assert_eq!(events.capacity(), 4);
}

#[test]
fn eintr_is_four() {
    assert_eq!(EINTR, 4);
}

#[test]
fn os_error_tells_interruption_apart() {
    assert_eq!(os_error(4), Error::Signal { code: 4 });
    assert_eq!(os_error(9), Error::Os { code: 9 });
    assert_eq!(os_error(0), Error::Os { code: 0 });
    assert_eq!(os_error(-4), Error::Os { code: -4 });
}

#[test]
fn unix_reply_fails_when_negative() {
    assert_eq!(Reply { ret: -1, errno: 9 }.result(), Err(Error::Os { code: 9 }));
    assert_eq!(Reply { ret: i32::MIN, errno: 22 }.result(), Err(Error::Os { code: 22 }));
    assert_eq!(Reply { ret: -1, errno: 4 }.result(), Err(Error::Signal { code: 4 }));
    assert_eq!(Reply { ret: -1, errno: 9 }.done(), Err(Error::Os { code: 9 }));
    assert_eq!(Reply { ret: -1, errno: 4 }.done(), Err(Error::Signal { code: 4 }));
}

#[test]
fn unix_reply_succeeds_otherwise() {
    assert_eq!(Reply { ret: 0, errno: 9 }.result(), Ok(0));
    assert_eq!(Reply { ret: 5, errno: 4 }.result(), Ok(5));
    assert_eq!(Reply { ret: i32::MAX, errno: 0 }.result(), Ok(i32::MAX));
    assert_eq!(Reply { ret: 0, errno: 9 }.done(), Ok(()));
    assert_eq!(Reply { ret: 5, errno: 4 }.done(), Ok(()));
}

#[test]
fn max_events_follows_the_capacity() {
    assert_eq!(max_events(0), 0);
    assert_eq!(max_events(1), 1);
    assert_eq!(max_events(1024), 1024);
    assert_eq!(max_events(i32::MAX as usize), i32::MAX);
}

#[test]
fn max_events_stops_at_the_greatest_count() {
    assert_eq!(max_events(i32::MAX as usize + 1), i32::MAX);
    assert_eq!(max_events(usize::MAX), i32::MAX);
}

#[test]
fn tokens_can_start_anywhere() {
    let mut tokens = TokenAllocator::starting_at(100);
    assert_eq!(tokens.allocate(), 100);
    assert_eq!(tokens.allocate(), 101);
}

#[test]
fn tokens_start_over_when_the_value_space_is_used_up() {
    let mut tokens = TokenAllocator::starting_at(usize::MAX - 1);
    assert_eq!(tokens.allocate(), usize::MAX - 1);
    assert_eq!(tokens.allocate(), usize::MAX);
    assert_eq!(tokens.allocate(), 0);
    assert_eq!(tokens.allocate(), 1);
}
