use vstd::prelude::*;

verus! {

/// Whether the client is waiting for a reply (`loading`) or receiving one
/// (`streaming`).
#[derive(Debug, Clone, Copy, PartialEq, Eq)]
pub struct AppState {
    pub loading: bool,
    pub streaming: bool,
}

/// A state in which the client is neither waiting for nor receiving a reply.
pub open spec fn is_ready(s: AppState) -> bool {
    !s.loading && !s.streaming
}

/// The slot with both flags set to the given values, if it holds a state.
pub open spec fn update_slot(slot: Option<AppState>, loading: bool, streaming: bool) -> Option<AppState> {
    match slot {
        Some(_) => Some(AppState { loading, streaming }),
        None => None,
    }
}

/// The slot after `set_is_loading`.
pub open spec fn loading_slot(slot: Option<AppState>) -> Option<AppState> {
    update_slot(slot, true, false)
}

/// The slot after `set_is_streaming`.
pub open spec fn streaming_slot(slot: Option<AppState>) -> Option<AppState> {
    update_slot(slot, false, true)
}

/// The slot after `set_ready`.
pub open spec fn ready_slot(slot: Option<AppState>) -> Option<AppState> {
    update_slot(slot, false, false)
}

/// What `get_is_loading` reports for a slot.
pub open spec fn reported_loading(slot: Option<AppState>) -> bool {
    match slot {
        Some(s) => s.loading,
        None => false,
    }
}

impl AppState {
    /// The state of a freshly started client: idle.
    pub fn new() -> (s: Self)
        ensures
            is_ready(s),
    {
        AppState { loading: false, streaming: false }
    }

    /// Installs a fresh state in the user-data slot, replacing whatever was there.
    pub fn init(slot: &mut Option<AppState>)
        ensures
            *final(slot) matches Some(s) && is_ready(s),
    {
        *slot = Some(Self::new());
    }
}

/// Marks the client as waiting for a reply; an empty slot stays empty.
pub fn set_is_loading(slot: &mut Option<AppState>)
    ensures
        *final(slot) == loading_slot(*old(slot)),
{
    if let Some(s) = slot {
        s.loading = true;
        s.streaming = false;
    }
}

/// Marks the client as receiving a reply; an empty slot stays empty.
pub fn set_is_streaming(slot: &mut Option<AppState>)
    ensures
        *final(slot) == streaming_slot(*old(slot)),
{
    if let Some(s) = slot {
        s.loading = false;
        s.streaming = true;
    }
}

/// Marks the client as idle; an empty slot stays empty.
pub fn set_ready(slot: &mut Option<AppState>)
    ensures
        *final(slot) == ready_slot(*old(slot)),
{
    if let Some(s) = slot {
        s.loading = false;
        s.streaming = false;
    }
}

/// Reports the `loading` flag of the state in the slot, or `false` when the
/// slot is empty.
pub fn get_is_loading(slot: &Option<AppState>) -> (r: bool)
    ensures
        r == reported_loading(*slot),
{
    match slot {
        Some(s) => s.loading,
        None => false,
    }
}

/// Reports, like `get_is_loading`, the `loading` flag of the state in the slot
/// (not its `streaming` flag), or `false` when the slot is empty.
pub fn get_is_streaming(slot: &Option<AppState>) -> (r: bool)
    ensures
        r == reported_loading(*slot),
{
    match slot {
        Some(s) => s.loading,
        None => false,
    }
}

/// No setter leaves the client both waiting for and receiving a reply, and
/// none fills or empties the slot.
pub proof fn lemma_setters_keep_flags_exclusive(slot: Option<AppState>)
    ensures
        loading_slot(slot) matches Some(s) ==> !(s.loading && s.streaming),
        streaming_slot(slot) matches Some(s) ==> !(s.loading && s.streaming),
        ready_slot(slot) matches Some(s) ==> !(s.loading && s.streaming),
        loading_slot(slot).is_some() == slot.is_some(),
        streaming_slot(slot).is_some() == slot.is_some(),
        ready_slot(slot).is_some() == slot.is_some(),
{
}

/// Reading the loading flag gives back what the last setter wrote: `true`
/// after `set_is_loading`, `false` after `set_is_streaming` or `set_ready`,
/// whenever a state is installed.
pub proof fn lemma_loading_flag_reads_back(slot: Option<AppState>)
    requires
        slot.is_some(),
    ensures
        reported_loading(loading_slot(slot)),
        !reported_loading(streaming_slot(slot)),
        !reported_loading(ready_slot(slot)),
{
}

/// The last setter decides the state: whatever came before, the slot holds
/// what that setter writes.
pub proof fn lemma_last_setter_wins(slot: Option<AppState>)
    ensures
        loading_slot(streaming_slot(slot)) == loading_slot(slot),
        loading_slot(ready_slot(slot)) == loading_slot(slot),
        streaming_slot(loading_slot(slot)) == streaming_slot(slot),
        streaming_slot(ready_slot(slot)) == streaming_slot(slot),
        ready_slot(loading_slot(slot)) == ready_slot(slot),
        ready_slot(streaming_slot(slot)) == ready_slot(slot),
{
}

} // verus!
