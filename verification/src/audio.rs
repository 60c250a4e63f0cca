use vstd::prelude::*;
use vstd::string::StringExecFns;

verus! {

/// The audio cues the application plays at each transition.
#[derive(Clone, Copy, PartialEq, Eq, Structural, Debug)]
pub enum SoundCue {
    Ping,
    Click,
    Swoosh,
    Success,
}

impl SoundCue {
    /// The name each cue is requested under.
    pub open spec fn spec_name(self) -> Seq<char> {
        match self {
            SoundCue::Ping => "Ping"@,
            SoundCue::Click => "Click"@,
            SoundCue::Swoosh => "Swoosh"@,
            SoundCue::Success => "Success"@,
        }
    }

    /// Renders the cue's request name.
    pub fn name(&self) -> (r: &'static str)
        ensures
            r@ == self.spec_name(),
    {
        match self {
            SoundCue::Ping => "Ping",
            SoundCue::Click => "Click",
            SoundCue::Swoosh => "Swoosh",
            SoundCue::Success => "Success",
        }
    }
}

/// Which recording a capture session belongs to.
#[derive(Clone, Copy, PartialEq, Eq, Structural, Debug)]
pub enum RecordingSlot {
    Instruction,
    Content,
}

impl RecordingSlot {
    /// The file name each slot's recording is captured into.
    pub fn file_name(&self) -> (r: &'static str)
        ensures
            *self == RecordingSlot::Instruction ==> r@ == "instruction.wav"@,
            *self == RecordingSlot::Content ==> r@ == "content.wav"@,
    {
        match self {
            RecordingSlot::Instruction => "instruction.wav",
            RecordingSlot::Content => "content.wav",
        }
    }
}

/// One sine tone of a cue: frequency in hundredths of a hertz, duration in
/// milliseconds, amplitude in thousandths of full scale.
#[derive(Clone, Copy, PartialEq, Eq, Structural, Debug)]
pub struct Tone {
    pub freq_centi_hz: u32,
    pub millis: u32,
    pub amp_milli: u32,
}

/// The tones that sound each cue, in playing order: a ping is one high
/// beep, a click one short blip, a swoosh one low tone, and success a
/// rising three-note chime.
pub fn cue_tones(cue: SoundCue) -> (v: Vec<Tone>)
    ensures
        cue == SoundCue::Ping ==> v@ =~= seq![
            (Tone { freq_centi_hz: 88000, millis: 200, amp_milli: 200 }),
        ],
        cue == SoundCue::Click ==> v@ =~= seq![
            (Tone { freq_centi_hz: 120000, millis: 50, amp_milli: 100 }),
        ],
        cue == SoundCue::Swoosh ==> v@ =~= seq![
            (Tone { freq_centi_hz: 40000, millis: 300, amp_milli: 200 }),
        ],
        cue == SoundCue::Success ==> v@ =~= seq![
            (Tone { freq_centi_hz: 52325, millis: 150, amp_milli: 200 }),
            (Tone { freq_centi_hz: 65925, millis: 150, amp_milli: 200 }),
            (Tone { freq_centi_hz: 78399, millis: 300, amp_milli: 200 }),
        ],
{
    let mut v: Vec<Tone> = Vec::new();
    match cue {
        SoundCue::Ping => {
            v.push(Tone { freq_centi_hz: 88000, millis: 200, amp_milli: 200 });
        },
        SoundCue::Click => {
            v.push(Tone { freq_centi_hz: 120000, millis: 50, amp_milli: 100 });
        },
        SoundCue::Swoosh => {
            v.push(Tone { freq_centi_hz: 40000, millis: 300, amp_milli: 200 });
        },
        SoundCue::Success => {
            v.push(Tone { freq_centi_hz: 52325, millis: 150, amp_milli: 200 });
            v.push(Tone { freq_centi_hz: 65925, millis: 150, amp_milli: 200 });
            v.push(Tone { freq_centi_hz: 78399, millis: 300, amp_milli: 200 });
        },
    }
    v
}

/// Why a capture session could not start.
#[derive(Clone, Copy, PartialEq, Eq, Structural, Debug)]
pub enum CaptureError {
    /// The requested device name matches no enumerated input device.
    DeviceNotFound,
    /// A session is already capturing; it must be stopped first.
    AlreadyRecording,
}

impl CaptureError {
    /// A human-actionable description.
    pub fn message(&self) -> (r: String)
        ensures
            *self == CaptureError::DeviceNotFound ==> r@
                == "requested input device not found"@,
            *self == CaptureError::AlreadyRecording ==> r@
                == "a recording session is already active"@,
    {
        match self {
            CaptureError::DeviceNotFound => String::from_str("requested input device not found"),
            CaptureError::AlreadyRecording => String::from_str(
                "a recording session is already active",
            ),
        }
    }
}

/// The capture session manager's state: whether a session currently owns
/// the input device.  The device stream, its worker, and its stop signal
/// live in the surrounding application; this flag is the single guard that
/// keeps two sessions from capturing at once.
pub struct AudioState {
    pub recording_active: bool,
}

impl AudioState {
    /// No session is active at first.
    pub fn new() -> (r: Self)
        ensures
            !r.recording_active,
    {
        AudioState { recording_active: false }
    }
}

/// Acquires the capture slot for a new session.  A start while a session
/// is still active is rejected rather than silently superseding it; the
/// state is then unchanged.
pub fn start_recording(state: &mut AudioState) -> (r: Result<(), CaptureError>)
    ensures
        old(state).recording_active ==> r == Err::<(), CaptureError>(
            CaptureError::AlreadyRecording,
        ) && *final(state) == *old(state),
        !old(state).recording_active ==> r == Ok::<(), CaptureError>(())
            && final(state).recording_active,
{
    if state.recording_active {
        Err(CaptureError::AlreadyRecording)
    } else {
        state.recording_active = true;
        Ok(())
    }
}

/// Releases the capture slot.  Safe to call with no session active: the
/// state ends inactive either way, so the call is idempotent.
pub fn stop_recording(state: &mut AudioState)
    ensures
        !final(state).recording_active,
{
    state.recording_active = false;
}

/// Picks the capture device a session uses: no request means the system
/// default, a requested name must match an enumerated device exactly, and
/// the first match wins.
pub fn select_device(requested: &Option<String>, available: &Vec<String>) -> (r: Result<
    Option<usize>,
    CaptureError,
>)
    ensures
        requested is None ==> r == Ok::<Option<usize>, CaptureError>(None),
        match requested {
            Some(name) => match r {
                Ok(choice) => match choice {
                    Some(i) => 0 <= i < available@.len() && available@[i as int]@ == name@
                        && forall|j: int| 0 <= j < i ==> available@[j]@ != name@,
                    None => false,
                },
                Err(e) => e == CaptureError::DeviceNotFound && forall|j: int|
                    0 <= j < available@.len() ==> available@[j]@ != name@,
            },
            None => true,
        },
{
    match requested {
        None => Ok(None),
        Some(name) => {
            match find_device(name, available) {
                Some(i) => Ok(Some(i)),
                None => Err(CaptureError::DeviceNotFound),
            }
        },
    }
}

/// The first enumerated device whose name matches exactly, if any.
fn find_device(name: &String, available: &Vec<String>) -> (r: Option<usize>)
    ensures
        match r {
            Some(i) => 0 <= i < available@.len() && available@[i as int]@ == name@ && forall|
                j: int,
            | 0 <= j < i ==> available@[j]@ != name@,
            None => forall|j: int| 0 <= j < available@.len() ==> available@[j]@ != name@,
        },
{
    let n = available.len();
    let mut i: usize = 0;
    while i < n
        invariant
            n == available@.len(),
            0 <= i <= n,
            forall|j: int| 0 <= j < i ==> available@[j]@ != name@,
        decreases n - i,
    {
        if available[i].eq(name) {
            return Some(i);
        }
        i = i + 1;
    }
    None
}

} // verus!
