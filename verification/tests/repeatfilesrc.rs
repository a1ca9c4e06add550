use gstplugins::element::{StateChange, StateChangeError};
use gstplugins::repeatfilesrc::RepeatFileSrc;

#[test]
fn location_reads_back() {
    let mut src = RepeatFileSrc::new();
    assert_eq!(src.get_location(), None);
    src.set_location(Some("/tmp/a.mp4".to_string()));
    assert_eq!(src.get_location(), Some("/tmp/a.mp4".to_string()));
    src.set_property("location", None);
    assert_eq!(src.property("location"), None);
    src.set_property("location", Some("b.mkv".to_string()));
    assert_eq!(src.property("location"), Some("b.mkv".to_string()));
}

#[test]
fn starting_without_location_is_refused() {
    let src = RepeatFileSrc::new();
    assert_eq!(src.change_state(StateChange::NullToReady), Err(StateChangeError));
}

#[test]
fn starting_with_location_starts_with_that_file() {
    let mut src = RepeatFileSrc::new();
    src.set_location(Some("clip.mp4".to_string()));
    assert_eq!(
        src.change_state(StateChange::NullToReady),
        Ok(Some("clip.mp4".to_string()))
    );
}

#[test]
fn other_transitions_need_nothing() {
    let src = RepeatFileSrc::new();
    for t in [
        StateChange::ReadyToPaused,
        StateChange::PausedToPlaying,
        StateChange::PlayingToPaused,
        StateChange::PausedToReady,
        StateChange::ReadyToNull,
    ] {
        assert_eq!(src.change_state(t), Ok(None));
    }
}

#[test]
fn fragments_are_only_appended_while_running() {
    let mut src = RepeatFileSrc::new();
    assert_eq!(src.append_fragment("x".to_string()), None);
    src.set_running();
    assert_eq!(src.append_fragment("x".to_string()), Some("x".to_string()));
}

#[test]
fn fragment_start_queues_the_file_again() {
    let mut src = RepeatFileSrc::new();
    src.set_location(Some("loop.mp4".to_string()));
    assert_eq!(src.handle_message("splitmuxsrc-fragment-started"), None);
    src.set_running();
    assert_eq!(
        src.handle_message("splitmuxsrc-fragment-started"),
        Some("loop.mp4".to_string())
    );
    assert_eq!(src.handle_message("splitmuxsrc-fragment-ended"), None);
    assert_eq!(src.handle_message("eos"), None);
}

#[test]
fn fragment_start_without_location_queues_nothing() {
    let mut src = RepeatFileSrc::new();
    src.set_running();
    assert_eq!(src.handle_message("splitmuxsrc-fragment-started"), None);
}

#[test]
fn changed_location_is_queued_next() {
    let mut src = RepeatFileSrc::new();
    src.set_location(Some("one.mp4".to_string()));
    src.set_running();
    src.set_location(Some("two.mp4".to_string()));
    assert_eq!(
        src.handle_message("splitmuxsrc-fragment-started"),
        Some("two.mp4".to_string())
    );
}
