use vstd::prelude::*;
use crate::audio::SoundCue;
use crate::logic::AppStatus;
use crate::models::HistoryItem;

verus! {

/// Where a pipeline run stands.  The stages run in order — ensure the
/// model, load settings, transcribe the instruction, transcribe the
/// content, enrich, write the clipboard, append the history — each
/// carrying forward the texts later stages need; `Done` and `Failed` are
/// terminal.
pub enum PipelineStage {
    EnsureModel,
    LoadSettings,
    TranscribeInstruction { model: String },
    TranscribeContent { model: String, instruction: String },
    Enrich { model: String, instruction: String, content: String },
    WriteClipboard { instruction: String, content: String, enriched: String },
    AppendHistory { instruction: String, content: String, enriched: String },
    Done,
    Failed { message: String },
}

/// What the surrounding application reports back after performing one
/// stage's work.
pub enum StepOutcome {
    ModelReady,
    SettingsLoaded { model: String },
    Transcribed { text: String },
    Enriched { text: String },
    ClipboardWritten,
    HistoryAppended,
    StepFailed { message: String },
}

/// Whether a stage ends the run.
pub open spec fn stage_terminal(stage: PipelineStage) -> bool {
    stage is Done || stage is Failed
}

/// The transition table of a pipeline run: a terminal stage absorbs every
/// outcome, any step failure ends the run with that failure, a fitting
/// success outcome advances to the next stage, and an outcome that does
/// not belong to the current stage changes nothing.
pub open spec fn spec_step(stage: PipelineStage, outcome: StepOutcome) -> PipelineStage {
    if stage_terminal(stage) {
        stage
    } else {
        match outcome {
            StepOutcome::StepFailed { message } => PipelineStage::Failed { message },
            _ => match (stage, outcome) {
                (PipelineStage::EnsureModel, StepOutcome::ModelReady) => PipelineStage::LoadSettings,
                (
                    PipelineStage::LoadSettings,
                    StepOutcome::SettingsLoaded { model },
                ) => PipelineStage::TranscribeInstruction { model },
                (
                    PipelineStage::TranscribeInstruction { model },
                    StepOutcome::Transcribed { text },
                ) => PipelineStage::TranscribeContent { model, instruction: text },
                (
                    PipelineStage::TranscribeContent { model, instruction },
                    StepOutcome::Transcribed { text },
                ) => PipelineStage::Enrich { model, instruction, content: text },
                (
                    PipelineStage::Enrich { model: _, instruction, content },
                    StepOutcome::Enriched { text },
                ) => PipelineStage::WriteClipboard { instruction, content, enriched: text },
                (
                    PipelineStage::WriteClipboard { instruction, content, enriched },
                    StepOutcome::ClipboardWritten,
                ) => PipelineStage::AppendHistory { instruction, content, enriched },
                (PipelineStage::AppendHistory { .. }, StepOutcome::HistoryAppended) => {
                    PipelineStage::Done
                },
                (st, _) => st,
            },
        }
    }
}

/// Advances a pipeline run by one reported outcome, exactly as the
/// transition table says.
pub fn pipeline_step(stage: PipelineStage, outcome: StepOutcome) -> (next: PipelineStage)
    ensures
        next == spec_step(stage, outcome),
{
    let terminal = match &stage {
        PipelineStage::Done => true,
        PipelineStage::Failed { .. } => true,
        _ => false,
    };
    if terminal {
        return stage;
    }
    match outcome {
        StepOutcome::StepFailed { message } => PipelineStage::Failed { message },
        other => match (stage, other) {
            (PipelineStage::EnsureModel, StepOutcome::ModelReady) => PipelineStage::LoadSettings,
            (
                PipelineStage::LoadSettings,
                StepOutcome::SettingsLoaded { model },
            ) => PipelineStage::TranscribeInstruction { model },
            (
                PipelineStage::TranscribeInstruction { model },
                StepOutcome::Transcribed { text },
            ) => PipelineStage::TranscribeContent { model, instruction: text },
            (
                PipelineStage::TranscribeContent { model, instruction },
                StepOutcome::Transcribed { text },
            ) => PipelineStage::Enrich { model, instruction, content: text },
            (
                PipelineStage::Enrich { model: _, instruction, content },
                StepOutcome::Enriched { text },
            ) => PipelineStage::WriteClipboard { instruction, content, enriched: text },
            (
                PipelineStage::WriteClipboard { instruction, content, enriched },
                StepOutcome::ClipboardWritten,
            ) => PipelineStage::AppendHistory { instruction, content, enriched },
            (PipelineStage::AppendHistory { .. }, StepOutcome::HistoryAppended) => {
                PipelineStage::Done
            },
            (st, _) => st,
        },
    }
}

/// The stage a run stands in after consuming a sequence of outcomes.
pub open spec fn run_stages(stage: PipelineStage, outs: Seq<StepOutcome>) -> PipelineStage
    decreases outs.len(),
{
    if outs.len() == 0 {
        stage
    } else {
        run_stages(spec_step(stage, outs[0]), outs.drop_first())
    }
}

/// Whether a run consuming these outcomes ever stands in the enrichment
/// stage.
pub open spec fn reaches_enrich(stage: PipelineStage, outs: Seq<StepOutcome>) -> bool
    decreases outs.len(),
{
    if stage is Enrich {
        true
    } else if outs.len() == 0 {
        false
    } else {
        reaches_enrich(spec_step(stage, outs[0]), outs.drop_first())
    }
}

/// Whether a run consuming these outcomes ever stands in the history
/// append stage.
pub open spec fn reaches_append(stage: PipelineStage, outs: Seq<StepOutcome>) -> bool
    decreases outs.len(),
{
    if stage is AppendHistory {
        true
    } else if outs.len() == 0 {
        false
    } else {
        reaches_append(spec_step(stage, outs[0]), outs.drop_first())
    }
}

/// A terminal stage absorbs every later outcome: the run stays exactly
/// there and enters no working stage again.
pub proof fn lemma_terminal_absorbs(stage: PipelineStage, outs: Seq<StepOutcome>)
    requires
        stage_terminal(stage),
    ensures
        run_stages(stage, outs) == stage,
        !reaches_enrich(stage, outs),
        !reaches_append(stage, outs),
    decreases outs.len(),
{
    if outs.len() > 0 {
        lemma_terminal_absorbs(spec_step(stage, outs[0]), outs.drop_first());
    }
}

/// If transcription of either recording fails, the run is failed from that
/// point on: whatever outcomes follow, the enrichment stage is never
/// entered, the history append stage is never entered, and the run ends in
/// exactly that failure.
pub proof fn lemma_transcription_failure_aborts(
    stage: PipelineStage,
    message: String,
    rest: Seq<StepOutcome>,
)
    requires
        stage matches PipelineStage::TranscribeInstruction { .. } || stage
            matches PipelineStage::TranscribeContent { .. },
    ensures
        spec_step(stage, StepOutcome::StepFailed { message }) == (PipelineStage::Failed {
            message,
        }),
        run_stages(spec_step(stage, StepOutcome::StepFailed { message }), rest)
            == (PipelineStage::Failed { message }),
        !reaches_enrich(spec_step(stage, StepOutcome::StepFailed { message }), rest),
        !reaches_append(spec_step(stage, StepOutcome::StepFailed { message }), rest),
{
    lemma_terminal_absorbs(PipelineStage::Failed { message }, rest);
}

/// How a finished run is reported back: whether it succeeded, the cue to
/// play, the error to surface if any, and the status to persist — always
/// idle, so the system can never stay stuck in processing.
pub struct PipelineConclusion {
    pub success: bool,
    pub cue: SoundCue,
    pub error: Option<String>,
    pub final_status: AppStatus,
}

/// Concludes a run: success sounds the success chime, anything else
/// sounds the error click and carries the failure's words, and the status
/// goes back to idle in every case.
pub fn conclude_pipeline(stage: &PipelineStage) -> (c: PipelineConclusion)
    ensures
        c.final_status == AppStatus::Idle,
        stage is Done ==> c.success && c.cue == SoundCue::Success && c.error is None,
        !(stage is Done) ==> !c.success && c.cue == SoundCue::Click,
        stage matches PipelineStage::Failed { message } ==> (c.error matches Some(m) && m@
            == message@),
{
    match stage {
        PipelineStage::Done => PipelineConclusion {
            success: true,
            cue: SoundCue::Success,
            error: None,
            final_status: AppStatus::Idle,
        },
        PipelineStage::Failed { message } => PipelineConclusion {
            success: false,
            cue: SoundCue::Click,
            error: Some(message.clone()),
            final_status: AppStatus::Idle,
        },
        _ => PipelineConclusion {
            success: false,
            cue: SoundCue::Click,
            error: None,
            final_status: AppStatus::Idle,
        },
    }
}

/// Relies on uuid::Uuid::new_v4 and its Display rendering: a fresh random
/// version-4 identifier in the hyphenated form, which is exactly 36
/// characters; the value is random, so nothing more is promised of it.
#[verifier::external_body]
fn fresh_id() -> (r: String)
    ensures
        r@.len() == 36,
{
    uuid::Uuid::new_v4().to_string()
}

/// Relies on chrono::Local::now and DateTime::to_rfc3339: the current
/// local time rendered in RFC 3339 form, which is never empty; the clock
/// decides the value, so nothing more is promised of it.
#[verifier::external_body]
fn now_rfc3339() -> (r: String)
    ensures
        r@.len() > 0,
{
    chrono::Local::now().to_rfc3339()
}

/// Builds the history record of one successful run: the three texts as
/// they stand, under a fresh identifier and the current timestamp.
pub fn new_history_item(
    instruction: String,
    original_content: String,
    enriched_content: String,
) -> (r: HistoryItem)
    ensures
        r.instruction == instruction,
        r.original_content == original_content,
        r.enriched_content == enriched_content,
        r.id@.len() == 36,
        r.timestamp@.len() > 0,
{
    HistoryItem {
        id: fresh_id(),
        timestamp: now_rfc3339(),
        instruction,
        original_content,
        enriched_content,
    }
}

} // verus!
