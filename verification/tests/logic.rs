use voicepipe::audio::{RecordingSlot, SoundCue};
use voicepipe::logic::{
    effective_timeout_minutes, handle_trigger, status_from_str, trigger_step, AppStatus,
    LogicState,
};
use voicepipe::models::Settings;
use voicepipe::pipeline::{conclude_pipeline, PipelineStage};

#[test]
fn four_triggers_walk_the_cycle() {
    // first press: idle starts the instruction recording
    let p1 = trigger_step(AppStatus::Idle);
    assert_eq!(p1.next_status, Some(AppStatus::Instruction));
    assert_eq!(p1.cue, Some(SoundCue::Ping));
    assert_eq!(p1.start_slot, Some(RecordingSlot::Instruction));
    assert!(!p1.stop_current);
    assert!(!p1.launch_pipeline);

    // second press: roll over into the content recording
    let p2 = trigger_step(AppStatus::Instruction);
    assert_eq!(p2.next_status, Some(AppStatus::Content));
    assert_eq!(p2.cue, Some(SoundCue::Click));
    assert!(p2.stop_current);
    assert_eq!(p2.start_slot, Some(RecordingSlot::Content));
    assert!(!p2.launch_pipeline);

    // third press: stop capturing and launch the pipeline
    let p3 = trigger_step(AppStatus::Content);
    assert_eq!(p3.next_status, Some(AppStatus::Processing));
    assert_eq!(p3.cue, Some(SoundCue::Swoosh));
    assert!(p3.stop_current);
    assert_eq!(p3.start_slot, None);
    assert!(p3.launch_pipeline);

    // the pipeline's completion resets the status to idle
    let c = conclude_pipeline(&PipelineStage::Done);
    assert_eq!(c.final_status, AppStatus::Idle);

    // and the fourth press starts the next cycle
    let p4 = trigger_step(c.final_status);
    assert_eq!(p4.next_status, Some(AppStatus::Instruction));
}

#[test]
fn trigger_during_processing_is_dropped() {
    let p = trigger_step(AppStatus::Processing);
    assert_eq!(p.next_status, None);
    assert_eq!(p.cue, None);
    assert_eq!(p.start_slot, None);
    assert!(!p.stop_current);
    assert!(!p.launch_pipeline);
}

#[test]
fn status_names_round_trip() {
    for st in [
        AppStatus::Idle,
        AppStatus::Instruction,
        AppStatus::Content,
        AppStatus::Processing,
    ] {
        assert_eq!(status_from_str(st.as_str()), st);
    }
    assert_eq!(AppStatus::Idle.as_str(), "idle");
    assert_eq!(AppStatus::Instruction.as_str(), "instruction");
    assert_eq!(AppStatus::Content.as_str(), "content");
    assert_eq!(AppStatus::Processing.as_str(), "processing");
}

#[test]
fn unknown_and_empty_status_read_as_idle() {
    assert_eq!(status_from_str(""), AppStatus::Idle);
    assert_eq!(status_from_str("nonsense"), AppStatus::Idle);
    assert_eq!(status_from_str("IDLE"), AppStatus::Idle);
}

#[test]
fn handle_trigger_reads_the_persisted_status() {
    let p = handle_trigger("content");
    assert!(p.launch_pipeline);
    assert_eq!(p.next_status, Some(AppStatus::Processing));
    let q = handle_trigger("processing");
    assert_eq!(q.next_status, None);
    // a store that never held a status acts as idle
    let r = handle_trigger("");
    assert_eq!(r.next_status, Some(AppStatus::Instruction));
}

#[test]
fn fresh_logic_state_is_idle() {
    assert_eq!(LogicState::new().status, AppStatus::Idle);
    assert_eq!(LogicState::default().status, AppStatus::Idle);
}

#[test]
fn timeout_falls_back_to_ten_minutes() {
    assert_eq!(effective_timeout_minutes(&None), 10);
    let mut s = Settings::default();
    s.recording_timeout_minutes = 3;
    assert_eq!(effective_timeout_minutes(&Some(s)), 3);
}
