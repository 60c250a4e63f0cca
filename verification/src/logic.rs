use vstd::prelude::*;
use vstd::string::StringExecFns;
use crate::audio::{RecordingSlot, SoundCue};
use crate::models::Settings;

verus! {

/// The four statuses of the trigger state machine.  Exactly one holds at
/// any instant; it is persisted on every change so a restarted process
/// resumes where it stopped.
#[derive(Clone, Copy, PartialEq, Eq, Structural, Debug)]
pub enum AppStatus {
    Idle,
    Instruction,
    Content,
    Processing,
}

impl AppStatus {
    /// The name under which each status is persisted.
    pub open spec fn spec_str(self) -> Seq<char> {
        match self {
            AppStatus::Idle => "idle"@,
            AppStatus::Instruction => "instruction"@,
            AppStatus::Content => "content"@,
            AppStatus::Processing => "processing"@,
        }
    }

    /// Renders the status as its persisted name.
    pub fn as_str(&self) -> (r: &'static str)
        ensures
            r@ == self.spec_str(),
    {
        match self {
            AppStatus::Idle => "idle",
            AppStatus::Instruction => "instruction",
            AppStatus::Content => "content",
            AppStatus::Processing => "processing",
        }
    }
}

/// The status a persisted name stands for.  The four names map to their
/// statuses; anything else — the empty string of a fresh store included —
/// is read as idle.
pub open spec fn spec_status_of(s: Seq<char>) -> AppStatus {
    if s == "instruction"@ {
        AppStatus::Instruction
    } else if s == "content"@ {
        AppStatus::Content
    } else if s == "processing"@ {
        AppStatus::Processing
    } else {
        AppStatus::Idle
    }
}

/// Reads a persisted status name back into a status.
pub fn status_from_str(s: &str) -> (r: AppStatus)
    ensures
        r == spec_status_of(s@),
{
    let t = s.to_owned();
    if t == String::from_str("instruction") {
        AppStatus::Instruction
    } else if t == String::from_str("content") {
        AppStatus::Content
    } else if t == String::from_str("processing") {
        AppStatus::Processing
    } else {
        AppStatus::Idle
    }
}

/// Writing a status out and reading it back gives the status again: the
/// four persisted names are distinct.
pub proof fn lemma_status_roundtrip(st: AppStatus)
    ensures
        spec_status_of(st.spec_str()) == st,
{
    broadcast use vstd::string::group_string_axioms;

    reveal_strlit("idle");
    reveal_strlit("instruction");
    reveal_strlit("content");
    reveal_strlit("processing");
    assert("idle"@.len() == 4);
    assert("instruction"@.len() == 11);
    assert("content"@.len() == 7);
    assert("processing"@.len() == 10);
}

/// The trigger state machine's in-memory mirror of the current status.
pub struct LogicState {
    pub status: AppStatus,
}

impl LogicState {
    /// A fresh state machine is idle.
    pub fn new() -> (r: Self)
        ensures
            r.status == AppStatus::Idle,
    {
        LogicState { status: AppStatus::Idle }
    }
}

impl Default for LogicState {
    /// Same as `new`.
    fn default() -> (r: Self)
        ensures
            r.status == AppStatus::Idle,
    {
        LogicState::new()
    }
}

/// Everything one trigger press asks the surrounding application to do:
/// which cue to play, whether to stop the active capture session, which
/// recording slot to start capturing for, whether to launch the pipeline,
/// and which status to persist — `None` when the press changes nothing.
#[derive(Clone, Copy, PartialEq, Eq, Structural, Debug)]
pub struct TriggerPlan {
    pub cue: Option<SoundCue>,
    pub stop_current: bool,
    pub start_slot: Option<RecordingSlot>,
    pub launch_pipeline: bool,
    pub next_status: Option<AppStatus>,
}

/// The transition table of the trigger state machine: what one press does
/// in each status.
pub open spec fn spec_trigger_plan(current: AppStatus) -> TriggerPlan {
    match current {
        AppStatus::Idle => TriggerPlan {
            cue: Some(SoundCue::Ping),
            stop_current: false,
            start_slot: Some(RecordingSlot::Instruction),
            launch_pipeline: false,
            next_status: Some(AppStatus::Instruction),
        },
        AppStatus::Instruction => TriggerPlan {
            cue: Some(SoundCue::Click),
            stop_current: true,
            start_slot: Some(RecordingSlot::Content),
            launch_pipeline: false,
            next_status: Some(AppStatus::Content),
        },
        AppStatus::Content => TriggerPlan {
            cue: Some(SoundCue::Swoosh),
            stop_current: true,
            start_slot: None,
            launch_pipeline: true,
            next_status: Some(AppStatus::Processing),
        },
        AppStatus::Processing => TriggerPlan {
            cue: None,
            stop_current: false,
            start_slot: None,
            launch_pipeline: false,
            next_status: None,
        },
    }
}

/// Decides what one trigger press does.  Idle starts the instruction
/// recording, Instruction rolls it over into the content recording,
/// Content stops capturing and launches the pipeline, and Processing
/// drops the press entirely, so rapid re-presses during a run change
/// nothing.
pub fn trigger_step(current: AppStatus) -> (p: TriggerPlan)
    ensures
        p == spec_trigger_plan(current),
        current == AppStatus::Processing ==> p.next_status is None && !p.launch_pipeline
            && p.start_slot is None && !p.stop_current && p.cue is None,
{
    match current {
        AppStatus::Idle => TriggerPlan {
            cue: Some(SoundCue::Ping),
            stop_current: false,
            start_slot: Some(RecordingSlot::Instruction),
            launch_pipeline: false,
            next_status: Some(AppStatus::Instruction),
        },
        AppStatus::Instruction => TriggerPlan {
            cue: Some(SoundCue::Click),
            stop_current: true,
            start_slot: Some(RecordingSlot::Content),
            launch_pipeline: false,
            next_status: Some(AppStatus::Content),
        },
        AppStatus::Content => TriggerPlan {
            cue: Some(SoundCue::Swoosh),
            stop_current: true,
            start_slot: None,
            launch_pipeline: true,
            next_status: Some(AppStatus::Processing),
        },
        AppStatus::Processing => TriggerPlan {
            cue: None,
            stop_current: false,
            start_slot: None,
            launch_pipeline: false,
            next_status: None,
        },
    }
}

/// Handles one trigger press against the persisted status: the status is
/// read from its stored name — not from memory — so a restarted process
/// resumes consistently, and the press acts by the transition table.
pub fn handle_trigger(persisted_status: &str) -> (p: TriggerPlan)
    ensures
        p == spec_trigger_plan(spec_status_of(persisted_status@)),
{
    trigger_step(status_from_str(persisted_status))
}

/// The recording timeout a run uses: the stored setting when the store
/// could be read, ten minutes otherwise.
pub fn effective_timeout_minutes(loaded: &Option<Settings>) -> (r: u32)
    ensures
        match loaded {
            Some(s) => r == s.recording_timeout_minutes,
            None => r == 10,
        },
{
    match loaded {
        Some(s) => s.recording_timeout_minutes,
        None => 10,
    }
}

/// Four presses from idle walk the whole cycle: the statuses visited are
/// Instruction, Content, then Processing; the pipeline is launched exactly
/// at the third press; and a further press while still Processing neither
/// transitions nor launches anything again.
pub proof fn lemma_trigger_cycle()
    ensures
        spec_trigger_plan(AppStatus::Idle).next_status == Some(AppStatus::Instruction),
        spec_trigger_plan(AppStatus::Instruction).next_status == Some(AppStatus::Content),
        spec_trigger_plan(AppStatus::Content).next_status == Some(AppStatus::Processing),
        spec_trigger_plan(AppStatus::Content).launch_pipeline,
        spec_trigger_plan(AppStatus::Processing).next_status is None,
        !spec_trigger_plan(AppStatus::Processing).launch_pipeline,
{
}

} // verus!
