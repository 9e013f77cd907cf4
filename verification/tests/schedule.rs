use ws_keepalive::cycle::ProbeError;
use ws_keepalive::schedule::next_start_ms;
use ws_keepalive::schedule::plan_after_cycle;
use ws_keepalive::schedule::secs_to_ms;
use ws_keepalive::schedule::SchedulerDirective;
use ws_keepalive::trace::run_cycle;
use ws_keepalive::trace::WireEvent;

#[test]
fn success_waits_one_interval_without_logging() {
    let d = plan_after_cycle(&Ok(()), 5000);
    assert_eq!(d, SchedulerDirective { log_failure: false, wait_ms: 5000 });
}

#[test]
fn failure_waits_the_same_interval_and_logs() {
    let failures = [
        Err(ProbeError::Construction(String::from("malformed endpoint"))),
        Err(ProbeError::Transport(String::from("connection reset"))),
        Err(ProbeError::TimeoutNoAck),
        Err(ProbeError::ChannelClosed),
    ];
    for outcome in failures.iter() {
        let d = plan_after_cycle(outcome, 5000);
        assert_eq!(d, SchedulerDirective { log_failure: true, wait_ms: 5000 });
    }
}

#[test]
fn consecutive_failures_never_delay_the_next_cycle() {
    // Three cycles in a row time out; each next cycle still starts exactly
    // one interval after the previous one ended.
    let interval_ms = 5000;
    let mut now: u64 = 0;
    let mut starts = Vec::new();
    for _ in 0..3 {
        starts.push(now);
        let events: Vec<WireEvent> = vec![];
        let (outcome, end) = run_cycle(&events, 2000);
        assert!(outcome.is_err());
        let d = plan_after_cycle(&outcome, interval_ms);
        now = next_start_ms(now + end, d.wait_ms).unwrap();
    }
    starts.push(now);
    assert_eq!(starts, vec![0, 7000, 14000, 21000]);
    for pair in starts.windows(2) {
        // end of the cycle, then exactly one interval of waiting
        assert_eq!(pair[1] - pair[0], 2000 + interval_ms);
    }
}

#[test]
fn seconds_convert_to_milliseconds() {
    assert_eq!(secs_to_ms(0), 0);
    assert_eq!(secs_to_ms(5), 5000);
    assert_eq!(secs_to_ms(u32::MAX), 4_294_967_295_000);
}

#[test]
fn next_start_adds_one_interval() {
    assert_eq!(next_start_ms(2000, 5000), Some(7000));
    assert_eq!(next_start_ms(0, 0), Some(0));
}

#[test]
fn next_start_reports_unrepresentable_instants() {
    assert_eq!(next_start_ms(u64::MAX, 1), None);
    assert_eq!(next_start_ms(u64::MAX, 0), Some(u64::MAX));
}
