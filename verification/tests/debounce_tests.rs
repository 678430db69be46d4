use inputd::debounce::Debouncer;
use inputd::debounce::Edge;
use inputd::debounce::DEBOUNCE_COUNT;

#[test]
fn test_edge_after_sixteen_stable_samples() {
    // A channel stable at false, fed 16 consecutive true samples, emits no
    // edge before the 16th sample and exactly one rising edge on it.
    let mut d = Debouncer::new(false);
    for _ in 0..DEBOUNCE_COUNT - 1 {
        assert_eq!(d.update(true), None);
    }
    assert_eq!(d.update(true), Some(Edge::Rising));
    assert!(d.confirmed);

    // Further agreeing samples emit nothing.
    for _ in 0..100 {
        assert_eq!(d.update(true), None);
    }

    // The same the other way: 15 silent false samples, then a falling edge.
    for _ in 0..DEBOUNCE_COUNT - 1 {
        assert_eq!(d.update(false), None);
    }
    assert_eq!(d.update(false), Some(Edge::Falling));
    assert!(!d.confirmed);
}

#[test]
fn test_single_sample_glitch_is_rejected() {
    // A single-sample glitch amid otherwise stable samples produces no edge.
    let mut d = Debouncer::new(false);
    assert_eq!(d.update(true), None);
    for _ in 0..100 {
        assert_eq!(d.update(false), None);
    }
    assert!(!d.confirmed);
}

#[test]
fn test_glitch_restarts_the_streak() {
    // One disagreeing-streak interrupted just before confirmation starts
    // over: an edge needs 16 consecutive samples again.
    let mut d = Debouncer::new(false);
    for _ in 0..DEBOUNCE_COUNT - 1 {
        assert_eq!(d.update(true), None);
    }
    assert_eq!(d.update(false), None);
    for _ in 0..DEBOUNCE_COUNT - 1 {
        assert_eq!(d.update(true), None);
    }
    assert_eq!(d.update(true), Some(Edge::Rising));
}

#[test]
fn test_initial_level_is_respected() {
    // A channel confirmed true at start emits a falling edge only after 16
    // consecutive false samples.
    let mut d = Debouncer::new(true);
    for _ in 0..DEBOUNCE_COUNT - 1 {
        assert_eq!(d.update(false), None);
    }
    assert_eq!(d.update(false), Some(Edge::Falling));
}
