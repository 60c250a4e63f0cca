use voicepipe::logic::AppStatus;
use voicepipe::models::{add_history_item, AppStateData};
use voicepipe::pipeline::{
    conclude_pipeline, new_history_item, pipeline_step, PipelineStage, StepOutcome,
};
use voicepipe::sample::SAMPLE_UNIT;
use voicepipe::wav::normalize_wav;

fn silent_stereo_wav_44100_two_seconds() -> Vec<u8> {
    let frames = 2 * 44100;
    let data = vec![0u8; frames * 2 * 2];
    let mut v = Vec::new();
    v.extend_from_slice(b"RIFF");
    v.extend_from_slice(&(4 + 8 + 16 + 8 + data.len() as u32).to_le_bytes());
    v.extend_from_slice(b"WAVE");
    v.extend_from_slice(b"fmt ");
    v.extend_from_slice(&16u32.to_le_bytes());
    v.extend_from_slice(&1u16.to_le_bytes());
    v.extend_from_slice(&2u16.to_le_bytes());
    v.extend_from_slice(&44100u32.to_le_bytes());
    v.extend_from_slice(&176400u32.to_le_bytes());
    v.extend_from_slice(&4u16.to_le_bytes());
    v.extend_from_slice(&16u16.to_le_bytes());
    v.extend_from_slice(b"data");
    v.extend_from_slice(&(data.len() as u32).to_le_bytes());
    v.extend_from_slice(&data);
    v
}

#[test]
fn transcription_failure_skips_enrichment_and_history() {
    let stage = PipelineStage::TranscribeInstruction {
        model: "gemma3:4b".to_string(),
    };
    let failed = pipeline_step(
        stage,
        StepOutcome::StepFailed {
            message: "failed to run model: bad input".to_string(),
        },
    );
    match &failed {
        PipelineStage::Failed { message } => {
            assert_eq!(message, "failed to run model: bad input");
        }
        other => panic!("expected a failed run, got {}", stage_name(other)),
    }
    // whatever is reported afterwards, the run stays failed: the
    // enrichment and history stages are never entered
    let mut stage = failed;
    for outcome in [
        StepOutcome::Enriched {
            text: "never".to_string(),
        },
        StepOutcome::ClipboardWritten,
        StepOutcome::HistoryAppended,
    ] {
        stage = pipeline_step(stage, outcome);
        assert!(matches!(stage, PipelineStage::Failed { .. }));
    }
    // and the conclusion still resets the status to idle
    let c = conclude_pipeline(&stage);
    assert!(!c.success);
    assert_eq!(c.final_status, AppStatus::Idle);
    assert!(c.error.is_some());
}

#[test]
fn content_transcription_failure_also_aborts() {
    let stage = PipelineStage::TranscribeContent {
        model: "m".to_string(),
        instruction: "do X".to_string(),
    };
    let failed = pipeline_step(
        stage,
        StepOutcome::StepFailed {
            message: "boom".to_string(),
        },
    );
    assert!(matches!(failed, PipelineStage::Failed { .. }));
    assert_eq!(conclude_pipeline(&failed).final_status, AppStatus::Idle);
}

#[test]
fn mismatched_outcome_changes_nothing() {
    let stage = PipelineStage::EnsureModel;
    let next = pipeline_step(stage, StepOutcome::ClipboardWritten);
    assert!(matches!(next, PipelineStage::EnsureModel));
}

#[test]
fn silence_pipeline_end_to_end() {
    // two seconds of 44.1 kHz stereo silence, used for both recordings
    let wav = silent_stereo_wav_44100_two_seconds();
    for bytes in [&wav, &wav] {
        let buf = normalize_wav(bytes).unwrap();
        assert_eq!(buf.sample_rate, 16000);
        assert_eq!(buf.samples.len(), 32000);
        assert!(buf.samples.iter().all(|&s| s == 0));
        assert!(buf.samples.iter().all(|&s| -SAMPLE_UNIT <= s && s <= SAMPLE_UNIT));
    }

    // the stub backend transcribes both recordings as "do X" and
    // enriches to "rewritten text"
    let mut stage = PipelineStage::EnsureModel;
    stage = pipeline_step(stage, StepOutcome::ModelReady);
    assert!(matches!(stage, PipelineStage::LoadSettings));
    stage = pipeline_step(
        stage,
        StepOutcome::SettingsLoaded {
            model: "gemma3:4b".to_string(),
        },
    );
    assert!(matches!(stage, PipelineStage::TranscribeInstruction { .. }));
    stage = pipeline_step(
        stage,
        StepOutcome::Transcribed {
            text: "do X".to_string(),
        },
    );
    assert!(matches!(stage, PipelineStage::TranscribeContent { .. }));
    stage = pipeline_step(
        stage,
        StepOutcome::Transcribed {
            text: "do X".to_string(),
        },
    );
    assert!(matches!(stage, PipelineStage::Enrich { .. }));
    stage = pipeline_step(
        stage,
        StepOutcome::Enriched {
            text: "rewritten text".to_string(),
        },
    );

    // the clipboard collaborator receives exactly the enriched text
    let clipboard_text = match &stage {
        PipelineStage::WriteClipboard { enriched, .. } => enriched.clone(),
        other => panic!("expected the clipboard stage, got {}", stage_name(other)),
    };
    assert_eq!(clipboard_text, "rewritten text");
    stage = pipeline_step(stage, StepOutcome::ClipboardWritten);

    // exactly one new history item is appended
    let mut data = AppStateData::default();
    assert_eq!(data.history.len(), 0);
    match &stage {
        PipelineStage::AppendHistory {
            instruction,
            content,
            enriched,
        } => {
            let item = new_history_item(instruction.clone(), content.clone(), enriched.clone());
            assert_eq!(item.id.len(), 36);
            assert!(!item.timestamp.is_empty());
            add_history_item(&mut data, item);
        }
        other => panic!("expected the history stage, got {}", stage_name(other)),
    }
    assert_eq!(data.history.len(), 1);
    assert_eq!(data.history[0].instruction, "do X");
    assert_eq!(data.history[0].original_content, "do X");
    assert_eq!(data.history[0].enriched_content, "rewritten text");

    stage = pipeline_step(stage, StepOutcome::HistoryAppended);
    assert!(matches!(stage, PipelineStage::Done));
    let c = conclude_pipeline(&stage);
    assert!(c.success);
    assert_eq!(c.final_status, AppStatus::Idle);
    assert!(c.error.is_none());
}

#[test]
fn history_items_get_distinct_ids() {
    let a = new_history_item("i".to_string(), "o".to_string(), "e".to_string());
    let b = new_history_item("i".to_string(), "o".to_string(), "e".to_string());
    assert_eq!(a.id.len(), 36);
    assert_eq!(b.id.len(), 36);
    assert_ne!(a.id, b.id);
}

fn stage_name(stage: &PipelineStage) -> &'static str {
    match stage {
        PipelineStage::EnsureModel => "EnsureModel",
        PipelineStage::LoadSettings => "LoadSettings",
        PipelineStage::TranscribeInstruction { .. } => "TranscribeInstruction",
        PipelineStage::TranscribeContent { .. } => "TranscribeContent",
        PipelineStage::Enrich { .. } => "Enrich",
        PipelineStage::WriteClipboard { .. } => "WriteClipboard",
        PipelineStage::AppendHistory { .. } => "AppendHistory",
        PipelineStage::Done => "Done",
        PipelineStage::Failed { .. } => "Failed",
    }
}
