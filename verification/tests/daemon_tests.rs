use lds_cosmic_applet::daemon::{is_streaming_mode, toggled_mode, DaemonState};
use lds_cosmic_applet::decimal::push_decimal;

#[test]
fn daemon_state_defaults_to_idle() {
    assert_eq!(DaemonState::default(), DaemonState::Idle);
}

#[test]
fn busy_states() {
    assert!(DaemonState::Recording.is_busy());
    assert!(DaemonState::Streaming.is_busy());
    assert!(DaemonState::Transcribing.is_busy());
    assert!(!DaemonState::Idle.is_busy());
    assert!(!DaemonState::ClipboardWritten.is_busy());
    assert!(!DaemonState::Unknown.is_busy());
}

#[test]
fn mode_toggles() {
    assert_eq!(toggled_mode("streaming"), "batch");
    assert_eq!(toggled_mode("batch"), "streaming");
    assert_eq!(toggled_mode("Streaming"), "streaming");
    assert_eq!(toggled_mode(""), "streaming");
    assert!(is_streaming_mode("streaming"));
    assert!(!is_streaming_mode("streaming "));
}

#[test]
fn mode_toggle_twice_restores() {
    for m in ["streaming", "batch"] {
        assert_eq!(toggled_mode(toggled_mode(m)), m);
    }
    assert_eq!(toggled_mode(toggled_mode("other")), "batch");
}

#[test]
fn decimal_numerals() {
    for n in [0u64, 7, 10, 1500, 3000, 1234567890, u64::MAX] {
        let mut s = String::from("x");
        push_decimal(&mut s, n);
        assert_eq!(s, format!("x{}", n));
        assert_eq!(s[1..].parse::<u64>().unwrap(), n);
    }
}
