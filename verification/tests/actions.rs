use lorelei::modules::music::actions::{forces_status_update, TrackCommand};
use lorelei::modules::music::{perform_action, VoiceAction};

#[test]
fn from_str_reads_the_six_names() {
    assert_eq!(VoiceAction::from_str("play"), Some(VoiceAction::Play));
    assert_eq!(VoiceAction::from_str("pause"), Some(VoiceAction::Pause));
    assert_eq!(VoiceAction::from_str("loop_on"), Some(VoiceAction::LoopOn));
    assert_eq!(VoiceAction::from_str("loop_off"), Some(VoiceAction::LoopOff));
    assert_eq!(VoiceAction::from_str("skip"), Some(VoiceAction::Skip));
    assert_eq!(VoiceAction::from_str("stop"), Some(VoiceAction::Stop));
}

#[test]
fn from_str_refuses_other_text() {
    assert_eq!(VoiceAction::from_str(""), None);
    assert_eq!(VoiceAction::from_str("Play"), None);
    assert_eq!(VoiceAction::from_str("loop"), None);
    assert_eq!(VoiceAction::from_str("stop "), None);
    assert_eq!(VoiceAction::from_str("resume"), None);
}

#[test]
fn perform_action_needs_a_call_and_a_track() {
    assert_eq!(perform_action(false, false, VoiceAction::Play), None);
    assert_eq!(perform_action(false, true, VoiceAction::Play), None);
    assert_eq!(perform_action(true, false, VoiceAction::Skip), None);
    assert_eq!(perform_action(true, true, VoiceAction::Play), Some(TrackCommand::Play));
    assert_eq!(perform_action(true, true, VoiceAction::Pause), Some(TrackCommand::Pause));
    assert_eq!(perform_action(true, true, VoiceAction::LoopOn), Some(TrackCommand::EnableLoop));
    assert_eq!(perform_action(true, true, VoiceAction::LoopOff), Some(TrackCommand::DisableLoop));
    assert_eq!(perform_action(true, true, VoiceAction::Skip), Some(TrackCommand::Skip));
    assert_eq!(perform_action(true, true, VoiceAction::Stop), Some(TrackCommand::Stop));
}

#[test]
fn status_refreshes_only_after_accepted_track_commands() {
    assert!(forces_status_update(TrackCommand::Play, true));
    assert!(forces_status_update(TrackCommand::Pause, true));
    assert!(forces_status_update(TrackCommand::EnableLoop, true));
    assert!(forces_status_update(TrackCommand::DisableLoop, true));
    assert!(!forces_status_update(TrackCommand::Play, false));
    assert!(!forces_status_update(TrackCommand::Skip, true));
    assert!(!forces_status_update(TrackCommand::Stop, true));
}
