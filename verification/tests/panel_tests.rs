use inputd::debounce::DEBOUNCE_COUNT;
use inputd::panel::Button;
use inputd::panel::ButtonPanel;
use inputd::panel::TickAction;
use inputd::panel::resolve_tick;
use inputd::panel::stream_url;
use inputd::supervisor::PlaybackCommand;

fn idle_samples() -> [bool; 6] {
    [false; 6]
}

#[test]
fn test_press_confirmed_after_sixteen_ticks() {
    // Holding one button's level for 16 ticks confirms exactly one press on
    // the 16th tick and nothing before.
    let mut panel = ButtonPanel::new();
    let mut samples = idle_samples();
    samples[1] = true;
    for _ in 0..DEBOUNCE_COUNT - 1 {
        let (pressed, released) = panel.update(&samples);
        assert!(pressed.is_empty());
        assert!(released.is_empty());
    }
    let (pressed, released) = panel.update(&samples);
    assert_eq!(pressed, vec![Button::Tonabnehmer]);
    assert!(released.is_empty());
}

#[test]
fn test_release_confirmed_after_sixteen_ticks() {
    let mut panel = ButtonPanel::new();
    let mut samples = idle_samples();
    samples[4] = true;
    for _ in 0..DEBOUNCE_COUNT {
        panel.update(&samples);
    }
    samples[4] = false;
    for _ in 0..DEBOUNCE_COUNT - 1 {
        let (pressed, released) = panel.update(&samples);
        assert!(pressed.is_empty());
        assert!(released.is_empty());
    }
    let (pressed, released) = panel.update(&samples);
    assert!(pressed.is_empty());
    assert_eq!(released, vec![Button::Mittel]);
}

#[test]
fn test_power_channel_polarity_is_inverted() {
    // Channel 0 is the fail-safe power switch: a rising raw edge reports a
    // release, a falling one a press.
    let mut panel = ButtonPanel::new();
    let mut samples = idle_samples();
    samples[0] = true;
    for _ in 0..DEBOUNCE_COUNT - 1 {
        panel.update(&samples);
    }
    let (pressed, released) = panel.update(&samples);
    assert!(pressed.is_empty());
    assert_eq!(released, vec![Button::Aus]);

    samples[0] = false;
    for _ in 0..DEBOUNCE_COUNT - 1 {
        panel.update(&samples);
    }
    let (pressed, released) = panel.update(&samples);
    assert_eq!(pressed, vec![Button::Aus]);
    assert!(released.is_empty());
}

#[test]
fn test_simultaneous_edges_keep_declaration_order() {
    // Two buttons confirmed in the same tick come back in declaration
    // order, whatever their channel numbers.
    let mut panel = ButtonPanel::new();
    let mut samples = idle_samples();
    samples[5] = true;
    samples[2] = true;
    for _ in 0..DEBOUNCE_COUNT - 1 {
        panel.update(&samples);
    }
    let (pressed, released) = panel.update(&samples);
    assert_eq!(pressed, vec![Button::Ukw, Button::Lang]);
    assert!(released.is_empty());
}

#[test]
fn test_resolve_press_dispatches_stream() {
    let action = resolve_tick(&vec![Button::Kurz], &vec![]);
    match action {
        TickAction::Send(PlaybackCommand::PlayUrl(url)) => {
            assert_eq!(url, "http://stream.radioparadise.com/eclectic-flac");
        }
        _ => panic!("expected a play intent"),
    }
}

#[test]
fn test_resolve_first_pressed_button_wins() {
    let action = resolve_tick(&vec![Button::Mittel, Button::Lang], &vec![]);
    match action {
        TickAction::Send(PlaybackCommand::PlayUrl(url)) => {
            assert_eq!(url, "http://stream.radioparadise.com/rock-flac");
        }
        _ => panic!("expected a play intent"),
    }
}

#[test]
fn test_resolve_power_press_shuts_down() {
    let action = resolve_tick(&vec![Button::Aus, Button::Ukw], &vec![]);
    assert!(matches!(action, TickAction::Shutdown));
}

#[test]
fn test_resolve_release_alone_stops() {
    let action = resolve_tick(&vec![], &vec![Button::Lang]);
    assert!(matches!(action, TickAction::Send(PlaybackCommand::Stop)));
}

#[test]
fn test_resolve_press_supersedes_release() {
    // A release in the same tick as a press must not stop the new stream.
    let action = resolve_tick(&vec![Button::Ukw], &vec![Button::Lang]);
    match action {
        TickAction::Send(PlaybackCommand::PlayUrl(url)) => {
            assert_eq!(url, "http://stream.radioparadise.com/mellow-flac");
        }
        _ => panic!("expected a play intent"),
    }
}

#[test]
fn test_resolve_quiet_tick_does_nothing() {
    let action = resolve_tick(&vec![], &vec![]);
    assert!(matches!(action, TickAction::Nothing));
}

#[test]
fn test_stream_urls() {
    assert_eq!(stream_url(Button::Tonabnehmer), "http://stream.srg-ssr.ch/m/rsj/mp3_128");
    assert_eq!(stream_url(Button::Ukw), "http://stream.radioparadise.com/mellow-flac");
    assert_eq!(stream_url(Button::Kurz), "http://stream.radioparadise.com/eclectic-flac");
    assert_eq!(stream_url(Button::Mittel), "http://stream.radioparadise.com/rock-flac");
    assert_eq!(stream_url(Button::Lang), "http://streamingv2.shoutcast.com/100-PROGRESSIVEROCK");
}
