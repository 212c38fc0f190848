use hemera::renderer::clock::{
    frame_delay_ms, AnimationClock, MAX_FRAME_DURATION_MS, MIN_FRAME_DURATION_MS,
};

#[test]
fn first_advance_loads_and_arms_first_deadline() {
    let delays: Vec<u64> = vec![100, 200, 300];
    let mut c = AnimationClock::new(&delays);
    assert!(!c.loaded());
    c.advance(50);
    assert!(c.loaded());
    assert_eq!(c.current_frame, 0);
    assert_eq!(c.next_deadline, 150);
}

#[test]
fn partial_sums_select_the_frame() {
    // after elapsed time d0 + .. + dk + a little, frame is (k + 1) mod N
    let delays: Vec<u64> = vec![100, 200, 300];
    let mut c = AnimationClock::new(&delays);
    c.advance(0);
    c.advance(99);
    assert_eq!(c.current_frame, 0);
    c.advance(101);
    assert_eq!(c.current_frame, 1);
    c.advance(301);
    assert_eq!(c.current_frame, 2);
    c.advance(601);
    assert_eq!(c.current_frame, 0); // wraps, playback loops forever
    c.advance(701);
    assert_eq!(c.current_frame, 1);
}

#[test]
fn catch_up_skips_frames_under_a_slow_loop() {
    // one big jump catches up past several deadlines at once
    let delays: Vec<u64> = vec![100, 200, 300];
    let mut c = AnimationClock::new(&delays);
    c.advance(0);
    c.advance(301);
    assert_eq!(c.current_frame, 2);
    // deadline accumulates along the timeline, not from the call time
    assert_eq!(c.next_deadline, 600);
}

#[test]
fn frame_index_stays_in_range_under_any_advances() {
    let delays: Vec<u64> = vec![40, 10, 25, 10];
    let mut c = AnimationClock::new(&delays);
    let times: Vec<u64> = vec![0, 5, 1000, 1001, 50_000, 50_001, 1_000_000];
    for t in times {
        c.advance(t);
        assert!(c.current_frame < 4);
    }
}

#[test]
fn equal_durations_cycle_evenly() {
    let delays: Vec<u64> = vec![50, 50];
    let mut c = AnimationClock::new(&delays);
    c.advance(1000);
    assert_eq!(c.current_frame, 0);
    c.advance(1050);
    assert_eq!(c.current_frame, 1);
    c.advance(1100);
    assert_eq!(c.current_frame, 0);
}

#[test]
fn zero_delay_is_floored_to_the_minimum() {
    let delays: Vec<u64> = vec![0];
    let mut c = AnimationClock::new(&delays);
    c.advance(7);
    assert_eq!(c.next_deadline, 7 + MIN_FRAME_DURATION_MS);
}

#[test]
fn oversized_delay_is_capped() {
    let delays: Vec<u64> = vec![u64::MAX];
    let mut c = AnimationClock::new(&delays);
    c.advance(0);
    assert_eq!(c.next_deadline, MAX_FRAME_DURATION_MS);
}

#[test]
fn delay_ratio_divides_down_to_milliseconds() {
    assert_eq!(frame_delay_ms(100, 1), 100);
    assert_eq!(frame_delay_ms(7, 2), 3);
    assert_eq!(frame_delay_ms(0, 10), 0);
}
