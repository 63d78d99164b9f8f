use soundscapes::ambient::{ambient_ab_step, AmbientState, PAUSE_TICKS_PER_UNIT};
use soundscapes::settings::AmbientSettings;
use soundscapes::sink::SinkModel;

fn voice(settings: AmbientSettings) -> AmbientState {
    AmbientState {
        sink: SinkModel {
            volume: 0,
            paused: false,
            empty: true,
        },
        file_a: String::from("A.ogg"),
        file_b: String::from("B.ogg"),
        settings,
        is_playing_a: true,
        loops_remaining: 1,
        pause_remaining_ticks: 0,
        is_paused: false,
    }
}

#[test]
fn simple_window_alternates_a_b_forever() {
    // repeat window 1..=1, pause window 0..=0: a plain A, B, A, B loop.
    let mut v = voice(AmbientSettings::default());
    for _ in 0..5 {
        assert!(v.is_playing_a);
        assert_eq!(ambient_ab_step(&mut v), Some(false)); // A drained: queue B
        assert!(!v.is_playing_a);
        assert_eq!(ambient_ab_step(&mut v), Some(true)); // B drained: back to A
        assert!(v.is_playing_a);
        assert_eq!(v.loops_remaining, 1);
        assert!(!v.is_paused);
    }
}

#[test]
fn non_empty_sink_means_no_transition() {
    let mut v = voice(AmbientSettings::default());
    v.sink.empty = false;
    assert_eq!(ambient_ab_step(&mut v), None);
    assert!(v.is_playing_a);
}

#[test]
fn pause_window_enters_a_timed_pause() {
    let mut s = AmbientSettings::default();
    s.pause_min = 2;
    s.pause_max = 2;
    let mut v = voice(s);
    assert_eq!(ambient_ab_step(&mut v), Some(false)); // A -> B
    assert_eq!(ambient_ab_step(&mut v), None); // B done, countdown spent: pause
    assert!(v.is_paused);
    assert_eq!(v.pause_remaining_ticks, 2 * PAUSE_TICKS_PER_UNIT);
    // the pause counts down one tick at a time
    let mut guard = 0u64;
    while v.is_paused {
        let enq = ambient_ab_step(&mut v);
        guard += 1;
        if v.is_paused {
            assert_eq!(enq, None);
        } else {
            assert_eq!(enq, Some(true)); // pause over: back to A
        }
        assert!(guard <= 2 * PAUSE_TICKS_PER_UNIT);
    }
    assert_eq!(guard, 2 * PAUSE_TICKS_PER_UNIT);
    assert!(v.is_playing_a);
    assert_eq!(v.loops_remaining, 1);
}

#[test]
fn drawn_countdowns_stay_inside_the_windows() {
    let mut s = AmbientSettings::default();
    s.repeat_min = 2;
    s.repeat_max = 5;
    s.pause_min = 1;
    s.pause_max = 3;
    for _ in 0..20 {
        let mut v = voice(s.clone());
        v.loops_remaining = 1;
        v.is_playing_a = false;
        let enq = ambient_ab_step(&mut v);
        // the countdown ran out: a pause is drawn from [1, 3]
        assert_eq!(enq, None);
        assert!(v.is_paused);
        assert!(v.pause_remaining_ticks >= PAUSE_TICKS_PER_UNIT);
        assert!(v.pause_remaining_ticks <= 3 * PAUSE_TICKS_PER_UNIT);
        // ending the pause draws a countdown from [2, 5]
        v.pause_remaining_ticks = 1;
        assert_eq!(ambient_ab_step(&mut v), Some(true));
        assert!(v.loops_remaining >= 2 && v.loops_remaining <= 5);
    }
}

#[test]
fn multi_cycle_window_counts_down_before_pausing() {
    let mut s = AmbientSettings::default();
    s.repeat_min = 3;
    s.repeat_max = 3;
    let mut v = voice(s);
    v.loops_remaining = 3;
    // two full A/B cycles only decrement the countdown
    assert_eq!(ambient_ab_step(&mut v), Some(false));
    assert_eq!(ambient_ab_step(&mut v), Some(true));
    assert_eq!(v.loops_remaining, 2);
    assert_eq!(ambient_ab_step(&mut v), Some(false));
    assert_eq!(ambient_ab_step(&mut v), Some(true));
    assert_eq!(v.loops_remaining, 1);
    // the third cycle ends the group; pause window is empty, so a fresh
    // countdown is drawn at once
    assert_eq!(ambient_ab_step(&mut v), Some(false));
    assert_eq!(ambient_ab_step(&mut v), Some(true));
    assert_eq!(v.loops_remaining, 3);
    assert!(!v.is_paused);
}
