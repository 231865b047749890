//! The stages of the transfers that are under way, and the bound on how many
//! of them hold a download slot at once.

use vstd::prelude::*;

verus! {

/// The stage of one transfer.
#[derive(Debug, Clone, Copy, PartialEq, Eq, Structural)]
pub enum TransferState {
    /// Waits for a download slot.
    Queued,
    /// Holds a slot and downloads.
    Downloading,
    /// Holds a slot; the download is being tagged.
    Tagging,
    /// Holds a slot; the file is being uploaded.
    Uploading,
    /// Done; the slot is free again.
    Completed,
    /// Given up; the slot is free again.
    Failed,
}

/// What happened to a transfer.
#[derive(Debug, Clone, Copy, PartialEq, Eq, Structural)]
pub enum TransferEvent {
    /// The limiter has a slot for the transfer.
    SlotGranted,
    /// The download ended and passed validation.
    DownloadFinished,
    /// The download failed or did not pass validation.
    DownloadFailed,
    /// Tagging ended, with or without metadata written.
    Tagged,
    /// The upload went through.
    Uploaded,
    /// The upload failed.
    UploadFailed,
}

/// Whether a transfer in this stage holds a download slot.
pub open spec fn holds_slot(state: TransferState) -> bool {
    state is Downloading || state is Tagging || state is Uploading
}

/// The stage that follows `state` on `event`. A transfer moves from queued
/// to downloading, tagging and uploading, and ends as completed or failed;
/// an event that does not belong to its stage leaves it where it is.
pub open spec fn next_state(state: TransferState, event: TransferEvent) -> TransferState {
    match (state, event) {
        (TransferState::Queued, TransferEvent::SlotGranted) => TransferState::Downloading,
        (TransferState::Downloading, TransferEvent::DownloadFinished) => TransferState::Tagging,
        (TransferState::Downloading, TransferEvent::DownloadFailed) => TransferState::Failed,
        (TransferState::Tagging, TransferEvent::Tagged) => TransferState::Uploading,
        (TransferState::Uploading, TransferEvent::Uploaded) => TransferState::Completed,
        (TransferState::Uploading, TransferEvent::UploadFailed) => TransferState::Failed,
        _ => state,
    }
}

/// Whether a transfer in this stage has ended.
pub open spec fn has_ended(state: TransferState) -> bool {
    state is Completed || state is Failed
}

/// The number of the first transfer among `states` that has ended; the
/// number behind the last one where none has.
pub open spec fn first_ended(states: Seq<TransferState>) -> int
    decreases states.len(),
{
    if states.len() == 0 || has_ended(states[0]) {
        0
    } else {
        1 + first_ended(states.drop_first())
    }
}

/// `states` with one more transfer that waits for a slot: in the place of
/// the first one that has ended, or behind the last one.
pub open spec fn with_queued(states: Seq<TransferState>) -> Seq<TransferState> {
    if first_ended(states) < states.len() {
        states.update(first_ended(states), TransferState::Queued)
    } else {
        states.push(TransferState::Queued)
    }
}

/// The transfers among `states` that hold a slot.
pub open spec fn slots_held(states: Seq<TransferState>) -> nat
    decreases states.len(),
{
    if states.len() == 0 {
        0
    } else {
        slots_held(states.drop_last()) + (if holds_slot(states.last()) {
            1nat
        } else {
            0nat
        })
    }
}

/// The transfers among `states` that are downloading.
pub open spec fn downloading(states: Seq<TransferState>) -> nat
    decreases states.len(),
{
    if states.len() == 0 {
        0
    } else {
        downloading(states.drop_last()) + (if states.last() is Downloading {
            1nat
        } else {
            0nat
        })
    }
}

/// The stage that follows `state` on `event` where at most `limit`
/// transfers may hold a slot and `held` do: a slot is granted only while
/// one is free.
pub open spec fn guarded_next(
    state: TransferState,
    event: TransferEvent,
    held: nat,
    limit: nat,
) -> TransferState {
    if event is SlotGranted && held >= limit {
        state
    } else {
        next_state(state, event)
    }
}

/// The transfers under way and the limit on their download slots.
pub struct TransferBoard {
    limit: usize,
    states: Vec<TransferState>,
    held: usize,
}

impl TransferBoard {
    /// The largest number of transfers that may hold a slot.
    pub closed spec fn limit(&self) -> nat {
        self.limit as nat
    }

    /// The stages of the transfers, by their number.
    pub closed spec fn states(&self) -> Seq<TransferState> {
        self.states@
    }

    /// The board counts its slots rightly and keeps within its limit.
    pub closed spec fn wf(&self) -> bool {
        self.held == slots_held(self.states@) && self.held <= self.limit
    }

    /// A board without transfers for up to `limit` slots.
    pub fn new(limit: usize) -> (board: Self)
        ensures
            board.wf(),
            board.limit() == limit,
            board.states() == Seq::<TransferState>::empty(),
    {
        TransferBoard { limit, states: Vec::new(), held: 0 }
    }

    /// Enters a transfer, which waits for a slot, and answers with its
    /// number. The number of the first transfer that has ended is given out
    /// again, so that the board grows only while none has ended.
    pub fn enqueue(&mut self) -> (id: usize)
        requires
            old(self).wf(),
        ensures
            final(self).wf(),
            final(self).limit() == old(self).limit(),
            id == first_ended(old(self).states()),
            final(self).states() == with_queued(old(self).states()),
            final(self).states().len() <= old(self).states().len() + 1,
            final(self).states()[id as int] == TransferState::Queued,
    {
        let mut id: usize = 0;
        while id < self.states.len()
            invariant
                *self == *old(self),
                self.wf(),
                id <= self.states@.len(),
                forall|k: int| 0 <= k < id ==> !has_ended(#[trigger] self.states@[k]),
            decreases self.states@.len() - id,
        {
            if ended(self.states[id]) {
                proof {
                    lemma_first_ended(self.states@, id as int);
                    lemma_slots_after_update(self.states@, id as int, TransferState::Queued);
                }
                self.states.set(id, TransferState::Queued);
                return id;
            }
            id = id + 1;
        }
        proof {
            lemma_first_ended(self.states@, id as int);
        }
        self.states.push(TransferState::Queued);
        assert(self.states@.drop_last() =~= old(self).states@);
        id
    }

    /// The stage of transfer `id`; `None` for a number that was never given out.
    pub fn state(&self, id: usize) -> (state: Option<TransferState>)
        ensures
            state == (if id < self.states().len() {
                Some(self.states()[id as int])
            } else {
                None
            }),
    {
        if id < self.states.len() {
            Some(self.states[id])
        } else {
            None
        }
    }

    /// The number of transfers that hold a slot.
    pub fn slots_in_use(&self) -> (held: usize)
        requires
            self.wf(),
        ensures
            held == slots_held(self.states()),
            held <= self.limit(),
    {
        self.held
    }

    /// Moves transfer `id` on `event` and answers with its stage. A slot is
    /// granted only while the limit leaves one free; a transfer that ends
    /// gives its slot back. An unknown number changes nothing.
    pub fn handle(&mut self, id: usize, event: TransferEvent) -> (state: Option<TransferState>)
        requires
            old(self).wf(),
        ensures
            final(self).wf(),
            final(self).limit() == old(self).limit(),
            id >= old(self).states().len() ==> state is None && final(self).states() == old(
                self,
            ).states(),
            id < old(self).states().len() ==> state == Some(
                guarded_next(
                    old(self).states()[id as int],
                    event,
                    slots_held(old(self).states()),
                    old(self).limit(),
                ),
            ) && final(self).states() == old(self).states().update(id as int, state->0),
    {
        if id >= self.states.len() {
            return None;
        }
        let before = self.states[id];
        let granted = match event {
            TransferEvent::SlotGranted => self.held < self.limit,
            _ => true,
        };
        let after = if granted {
            step(before, event)
        } else {
            before
        };
        proof {
            lemma_slots_after_update(self.states@, id as int, after);
        }
        let held_before = holds(before);
        let held_after = holds(after);
        self.states.set(id, after);
        if held_before && !held_after {
            self.held = self.held - 1;
        } else if !held_before && held_after {
            self.held = self.held + 1;
        }
        Some(after)
    }
}

/// The stage that follows `state` on `event`.
pub fn step(state: TransferState, event: TransferEvent) -> (next: TransferState)
    ensures
        next == next_state(state, event),
{
    match (state, event) {
        (TransferState::Queued, TransferEvent::SlotGranted) => TransferState::Downloading,
        (TransferState::Downloading, TransferEvent::DownloadFinished) => TransferState::Tagging,
        (TransferState::Downloading, TransferEvent::DownloadFailed) => TransferState::Failed,
        (TransferState::Tagging, TransferEvent::Tagged) => TransferState::Uploading,
        (TransferState::Uploading, TransferEvent::Uploaded) => TransferState::Completed,
        (TransferState::Uploading, TransferEvent::UploadFailed) => TransferState::Failed,
        _ => state,
    }
}

/// Whether a transfer in this stage has ended.
pub fn ended(state: TransferState) -> (over: bool)
    ensures
        over == has_ended(state),
{
    match state {
        TransferState::Completed | TransferState::Failed => true,
        _ => false,
    }
}

/// No ended transfer before `at`, and one at `at` or none at all, makes
/// `at` the number of the first transfer that has ended.
pub proof fn lemma_first_ended(states: Seq<TransferState>, at: int)
    requires
        0 <= at <= states.len(),
        forall|k: int| 0 <= k < at ==> !has_ended(#[trigger] states[k]),
        at == states.len() || has_ended(states[at]),
    ensures
        first_ended(states) == at,
    decreases at,
{
    if at > 0 {
        let rest = states.drop_first();
        assert(forall|k: int| 0 <= k < at - 1 ==> #[trigger] rest[k] == states[k + 1]);
        lemma_first_ended(rest, at - 1);
    }
}

/// Entering a transfer changes neither the slots that are held nor the
/// transfers that are under way.
pub proof fn lemma_enqueue_keeps_slots(states: Seq<TransferState>)
    ensures
        slots_held(with_queued(states)) == slots_held(states),
        downloading(with_queued(states)) <= slots_held(states),
{
    let at = first_ended(states);
    lemma_first_ended_range(states);
    if at < states.len() {
        lemma_slots_after_update(states, at, TransferState::Queued);
    } else {
        assert(states.push(TransferState::Queued).drop_last() =~= states);
    }
    lemma_downloading_hold_slots(with_queued(states));
}

/// The first ended transfer is one of the transfers, it has ended, and none
/// before it has; or it is the number behind the last.
pub proof fn lemma_first_ended_range(states: Seq<TransferState>)
    ensures
        0 <= first_ended(states) <= states.len(),
        first_ended(states) < states.len() ==> has_ended(states[first_ended(states)]),
    decreases states.len(),
{
    if states.len() > 0 && !has_ended(states[0]) {
        lemma_first_ended_range(states.drop_first());
    }
}

/// Whether a transfer in this stage holds a download slot.
pub fn holds(state: TransferState) -> (held: bool)
    ensures
        held == holds_slot(state),
{
    match state {
        TransferState::Downloading | TransferState::Tagging | TransferState::Uploading => true,
        _ => false,
    }
}

/// Changing the stage of one transfer changes the count of held slots by
/// that transfer alone.
pub proof fn lemma_slots_after_update(states: Seq<TransferState>, at: int, state: TransferState)
    requires
        0 <= at < states.len(),
    ensures
        slots_held(states.update(at, state)) + (if holds_slot(states[at]) {
            1nat
        } else {
            0nat
        }) == slots_held(states) + (if holds_slot(state) {
            1nat
        } else {
            0nat
        }),
    decreases states.len(),
{
    let changed = states.update(at, state);
    if at == states.len() - 1 {
        assert(changed.drop_last() =~= states.drop_last());
    } else {
        assert(changed.drop_last() =~= states.drop_last().update(at, state));
        lemma_slots_after_update(states.drop_last(), at, state);
    }
}

/// No more transfers download than hold a slot.
pub proof fn lemma_downloading_hold_slots(states: Seq<TransferState>)
    ensures
        downloading(states) <= slots_held(states),
    decreases states.len(),
{
    if states.len() > 0 {
        lemma_downloading_hold_slots(states.drop_last());
    }
}

/// On a board with limit N at most N transfers are downloading, in every
/// state that the board can reach.
pub proof fn lemma_downloads_within_limit(board: &TransferBoard)
    requires
        board.wf(),
    ensures
        downloading(board.states()) <= board.limit(),
        slots_held(board.states()) <= board.limit(),
{
    lemma_downloading_hold_slots(board.states());
}

/// A transfer that has ended stays ended, and one that holds a slot gives
/// it up only by ending.
pub proof fn lemma_slot_is_held_until_the_end(state: TransferState, event: TransferEvent)
    ensures
        state is Completed || state is Failed ==> next_state(state, event) == state,
        holds_slot(state) && !holds_slot(next_state(state, event)) ==> next_state(state, event)
            is Completed || next_state(state, event) is Failed,
        !holds_slot(state) && holds_slot(next_state(state, event)) ==> state is Queued && event
            is SlotGranted,
{
}

} // verus!
