use vibemusic::error::AppError;
use vibemusic::samples::VOLUME_UNIT;
use vibemusic::state::PlaybackState;

#[test]
fn default_state_is_empty_at_unity_volume() {
    let s = PlaybackState::default();
    assert!(!s.is_playing);
    assert!(!s.is_paused);
    assert_eq!(s.current_file, None);
    assert_eq!(s.position_ms, 0);
    assert_eq!(s.duration_ms, 0);
    assert_eq!(s.volume, VOLUME_UNIT);
}

#[test]
fn errors_carry_their_description() {
    let e = AppError::Audio("no device".to_string());
    assert_eq!(e.message(), "no device");
    let e = AppError::Database("locked".to_string());
    assert_eq!(e.message(), "locked");
    let e = AppError::Io("pipe closed".to_string());
    assert_eq!(e.message(), "pipe closed");
    let e = AppError::MediaControl("detached".to_string());
    assert_eq!(e.message(), "detached");
}

#[test]
fn bare_descriptions_convert_to_unclassified_errors() {
    let e = AppError::from("something odd".to_string());
    assert!(matches!(&e, AppError::Unknown(m) if m == "something odd"));
    assert_eq!(e.message(), "something odd");
}
