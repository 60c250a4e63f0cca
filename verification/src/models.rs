use vstd::prelude::*;
use vstd::string::StringExecFns;

verus! {

/// Per-user configuration.  Components read a snapshot of it at the start
/// of each run; it never changes during one.
pub struct Settings {
    /// Identifier of the chat model the enrichment step asks for.
    pub model: String,
    /// Name of the capture device, or `default` for the system default.
    pub microphone: String,
    /// The global hotkey binding the shell registers.
    pub hotkey: String,
    /// How long a capture session may run before it stops itself.
    pub recording_timeout_minutes: u32,
}

impl Settings {
    /// What the built-in defaults hold.
    pub open spec fn is_default(self) -> bool {
        &&& self.model@ == "gemma3:4b"@
        &&& self.microphone@ == "default"@
        &&& self.hotkey@ == "Ctrl+I"@
        &&& self.recording_timeout_minutes == 10
    }
}

impl Default for Settings {
    /// The defaults applied when no stored settings exist.
    fn default() -> (r: Self)
        ensures
            r.is_default(),
    {
        Settings {
            model: String::from_str("gemma3:4b"),
            microphone: String::from_str("default"),
            hotkey: String::from_str("Ctrl+I"),
            recording_timeout_minutes: 10,
        }
    }
}

/// One completed pipeline run: created once, appended to the history, and
/// never changed afterwards.
pub struct HistoryItem {
    pub id: String,
    pub timestamp: String,
    pub instruction: String,
    pub original_content: String,
    pub enriched_content: String,
}

/// Everything the application persists between runs: the settings, the
/// ordered history of completed runs, and the trigger state machine's
/// current status name.
pub struct AppStateData {
    pub settings: Settings,
    pub history: Vec<HistoryItem>,
    pub status: String,
}

impl Default for AppStateData {
    /// A fresh store: default settings, no history, and the idle status.
    fn default() -> (r: Self)
        ensures
            r.settings.is_default(),
            r.history@.len() == 0,
            r.status@ == "idle"@,
    {
        AppStateData {
            settings: Settings::default(),
            history: Vec::new(),
            status: default_status(),
        }
    }
}

/// The status name a store starts with, and falls back to when the stored
/// field is absent or empty.
pub fn default_status() -> (r: String)
    ensures
        r@ == "idle"@,
{
    String::from_str("idle")
}

/// Appends one completed run to the history; nothing else changes.
pub fn add_history_item(data: &mut AppStateData, item: HistoryItem)
    ensures
        final(data).history@ == old(data).history@.push(item),
        final(data).settings == old(data).settings,
        final(data).status == old(data).status,
{
    data.history.push(item);
}

/// Removes every history item; settings and status stay.
pub fn clear_history(data: &mut AppStateData)
    ensures
        final(data).history@.len() == 0,
        final(data).settings == old(data).settings,
        final(data).status == old(data).status,
{
    data.history.clear();
}

/// The history with every item carrying `id` removed, the order of the
/// rest kept.
pub open spec fn history_without(s: Seq<HistoryItem>, id: Seq<char>) -> Seq<HistoryItem>
    decreases s.len(),
{
    if s.len() == 0 {
        Seq::empty()
    } else {
        let rest = history_without(s.drop_last(), id);
        if s.last().id@ != id {
            rest.push(s.last())
        } else {
            rest
        }
    }
}

/// Removes the history items carrying `id`, keeping the order of the rest;
/// settings and status stay.
pub fn delete_history_item(data: &mut AppStateData, id: &String)
    ensures
        final(data).history@ == history_without(old(data).history@, id@),
        final(data).settings == old(data).settings,
        final(data).status == old(data).status,
{
    let ghost orig = data.history@;
    let mut kept: Vec<HistoryItem> = Vec::new();
    let mut i: usize = 0;
    proof {
        assert(orig.take(0) =~= Seq::<HistoryItem>::empty());
    }
    while i < data.history.len()
        invariant
            orig == data.history@,
            0 <= i <= orig.len(),
            kept@ == history_without(orig.take(i as int), id@),
        decreases orig.len() - i,
    {
        let ghost prefix = orig.take(i as int + 1);
        proof {
            assert(prefix.drop_last() =~= orig.take(i as int));
            assert(prefix.last() == orig[i as int]);
        }
        let it = &data.history[i];
        if !(it.id.eq(id)) {
            let copy = HistoryItem {
                id: it.id.clone(),
                timestamp: it.timestamp.clone(),
                instruction: it.instruction.clone(),
                original_content: it.original_content.clone(),
                enriched_content: it.enriched_content.clone(),
            };
            proof {
                assert(copy == orig[i as int]);
            }
            kept.push(copy);
        }
        proof {
            assert(history_without(prefix, id@) == kept@);
        }
        i = i + 1;
    }
    proof {
        assert(orig.take(orig.len() as int) =~= orig);
    }
    data.history = kept;
}

} // verus!
