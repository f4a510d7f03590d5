use vstd::prelude::*;

verus! {

/// Why the local chain refused a block, as far as the blockchain worker
/// tells reasons apart.
#[derive(Clone, Copy, Debug, PartialEq, Eq, Structural)]
pub enum RejectionReason {
    /// The block does not follow the last block of the local chain.
    BlockOutOfSequence,
    /// The block is on a chain shorter than the local one.
    NotTallestChain,
    /// Any other reason.
    Other,
}

/// The result of offering a block to the local chain.
#[derive(Clone, Copy, Debug, PartialEq, Eq, Structural)]
pub enum BlockVerdict {
    Accepted,
    Rejected(RejectionReason),
}

/// Where a block that arrives goes.
#[derive(Clone, Copy, Debug, PartialEq, Eq, Structural)]
pub enum PendingRoute {
    /// The node is catching up: keep the block with the future blocks.
    Defer,
    /// Offer the block to the local chain.
    Process,
}

/// What the worker does beyond telling the miner and the dashboard, after
/// the local chain refused a block.
#[derive(Clone, Copy, Debug, PartialEq, Eq, Structural)]
pub enum FollowUp {
    Nothing,
    /// Ask the network for its state from the block at this height on; when
    /// `record_start` holds, note the time at which catching up started.
    RequestState { lowest_block: u128, record_start: bool },
    /// Tell the block's miner that it is out of consensus, and keep the
    /// block with the invalid blocks.
    ReportInvalid,
}

/// What the worker does after offering a block to the local chain.
#[derive(Clone, Copy, Debug, PartialEq, Eq, Structural)]
pub enum BlockOutcome {
    /// Apply the block to the network state, confirm it to the miner with
    /// the new state, and refresh the dashboard.
    Confirmed,
    /// Tell the miner the block is invalid and refresh the dashboard;
    /// before that, keep the block with the future blocks if `stash` holds,
    /// and do `follow_up`.
    Rejected { stash: bool, follow_up: FollowUp },
}

/// What the worker does after storing a state component it was sent.
#[derive(Clone, Copy, Debug, PartialEq, Eq, Structural)]
pub enum ComponentStep {
    /// Not catching up: the component is dropped.
    Ignore,
    /// All core components are in: process the future blocks kept so far.
    BeginBacklog,
    /// Some are still missing and it is time to ask again: forget which
    /// components were received.
    ClearReceived,
    /// Some are still missing: wait for them.
    Wait,
}

/// The blockchain worker's catching-up flags: whether it is waiting for the
/// network's state, and whether it is working through the blocks it kept
/// while waiting.
#[derive(Clone, Copy, Debug, PartialEq, Eq, Structural)]
pub struct SyncState {
    pub updating_state: bool,
    pub processing_backlog: bool,
}

/// The outcome of offering a block of height `block_height`: `oldest_future`
/// is the height of the oldest kept future block once this block has been
/// kept too, and `child` and `genesis` the heights of the chain's last
/// block and of its genesis block, when it has them.
pub open spec fn block_outcome(
    state: SyncState,
    verdict: BlockVerdict,
    block_height: u128,
    oldest_future: Option<u128>,
    child: Option<u128>,
    genesis: Option<u128>,
) -> BlockOutcome {
    match verdict {
        BlockVerdict::Accepted => BlockOutcome::Confirmed,
        BlockVerdict::Rejected(RejectionReason::BlockOutOfSequence) => BlockOutcome::Rejected {
            stash: true,
            follow_up: if !state.updating_state && !state.processing_backlog {
                match oldest_future {
                    Some(h) => FollowUp::RequestState { lowest_block: h, record_start: true },
                    None => FollowUp::Nothing,
                }
            } else {
                FollowUp::Nothing
            },
        },
        BlockVerdict::Rejected(RejectionReason::NotTallestChain) => BlockOutcome::Rejected {
            stash: false,
            follow_up: FollowUp::Nothing,
        },
        BlockVerdict::Rejected(RejectionReason::Other) => BlockOutcome::Rejected {
            stash: false,
            follow_up: if state.updating_state {
                FollowUp::Nothing
            } else if block_height > lowest_known(child, genesis) + 1 {
                FollowUp::RequestState { lowest_block: lowest_known(child, genesis), record_start: false }
            } else {
                FollowUp::ReportInvalid
            },
        },
    }
}

/// The height of the block from which a node that is behind asks for the
/// network's state: the chain's last block, or its genesis block when it has
/// no other.
pub open spec fn lowest_known(child: Option<u128>, genesis: Option<u128>) -> u128 {
    match child {
        Some(h) => h,
        None => genesis.unwrap(),
    }
}

/// Whether an outcome asks the network for its state.
pub open spec fn requests_state(outcome: BlockOutcome) -> bool {
    outcome matches BlockOutcome::Rejected { follow_up: FollowUp::RequestState { .. }, .. }
}

/// The flags after an outcome: a request for state starts catching up.
pub open spec fn state_after_outcome(state: SyncState, outcome: BlockOutcome) -> SyncState {
    SyncState { updating_state: state.updating_state || requests_state(outcome), ..state }
}

/// The step after a stored component, given whether the core components
/// are now all in and whether it is time to ask again for missing ones.
pub open spec fn component_step(state: SyncState, core_complete: bool, request_again: bool) -> ComponentStep {
    if !state.updating_state {
        ComponentStep::Ignore
    } else if core_complete {
        ComponentStep::BeginBacklog
    } else if request_again {
        ComponentStep::ClearReceived
    } else {
        ComponentStep::Wait
    }
}

/// The flags after a stored component: when the core components are all
/// in, catching up ends and the kept blocks are worked through.
pub open spec fn state_after_component(state: SyncState, step: ComponentStep) -> SyncState {
    if step == ComponentStep::BeginBacklog {
        SyncState { updating_state: false, processing_backlog: true }
    } else {
        state
    }
}

/// The flags after working through the kept blocks.
pub open spec fn state_after_backlog(state: SyncState) -> SyncState {
    SyncState { processing_backlog: false, ..state }
}

/// The indices, in increasing order, of the kept blocks whose height is
/// above `last`: those are processed, the others were processed already.
pub open spec fn is_backlog_plan(plan: Seq<usize>, heights: Seq<u128>, last: u128) -> bool {
    &&& forall|k: int| 0 <= k < plan.len() ==> #[trigger] plan[k] < heights.len()
    &&& forall|k: int| 0 <= k < plan.len() ==> heights[#[trigger] plan[k] as int] > last
    &&& forall|j: int, k: int| 0 <= j < k < plan.len() ==> #[trigger] plan[j] < #[trigger] plan[k]
    &&& forall|i: int| 0 <= i < heights.len() && heights[i] > last ==> #[trigger] plan.contains(
        i as usize,
    )
}

impl SyncState {
    /// A worker that starts is neither catching up nor working through kept
    /// blocks.
    pub fn new() -> (state: SyncState)
        ensures
            !state.updating_state,
            !state.processing_backlog,
    {
        SyncState { updating_state: false, processing_backlog: false }
    }

    /// While the node catches up with the network, arriving blocks are kept
    /// for later; otherwise they are offered to the local chain.
    pub fn route_pending_block(&self) -> (route: PendingRoute)
        ensures
            route == (if self.updating_state {
                PendingRoute::Defer
            } else {
                PendingRoute::Process
            }),
    {
        if self.updating_state {
            PendingRoute::Defer
        } else {
            PendingRoute::Process
        }
    }

    /// Decides what follows the local chain's verdict on a block. A block
    /// out of sequence is kept, and when the worker is neither catching up
    /// nor working through kept blocks it asks for the network's state from
    /// the oldest kept block on. A block refused for another reason while
    /// not catching up leads to a request for state from the chain's last
    /// block (its genesis when it has no other) when the block is more than
    /// one above it, and to an invalid block report otherwise. A request for
    /// state starts catching up.
    pub fn after_verdict(
        &mut self,
        verdict: BlockVerdict,
        block_height: u128,
        oldest_future: Option<u128>,
        child: Option<u128>,
        genesis: Option<u128>,
    ) -> (outcome: BlockOutcome)
        requires
            verdict == BlockVerdict::Rejected(RejectionReason::Other) && !old(self).updating_state
                ==> (child is Some || genesis is Some) && lowest_known(child, genesis) < u128::MAX,
        ensures
            outcome == block_outcome(*old(self), verdict, block_height, oldest_future, child, genesis),
            *final(self) == state_after_outcome(*old(self), outcome),
    {
        match verdict {
            BlockVerdict::Accepted => BlockOutcome::Confirmed,
            BlockVerdict::Rejected(RejectionReason::BlockOutOfSequence) => {
                let mut follow_up = FollowUp::Nothing;
                if !self.updating_state && !self.processing_backlog {
                    if let Some(h) = oldest_future {
                        follow_up = FollowUp::RequestState { lowest_block: h, record_start: true };
                        self.updating_state = true;
                    }
                }
                BlockOutcome::Rejected { stash: true, follow_up }
            },
            BlockVerdict::Rejected(RejectionReason::NotTallestChain) => BlockOutcome::Rejected {
                stash: false,
                follow_up: FollowUp::Nothing,
            },
            BlockVerdict::Rejected(RejectionReason::Other) => {
                let mut follow_up = FollowUp::Nothing;
                if !self.updating_state {
                    let lowest = match (child, genesis) {
                        (Some(h), _) => h,
                        (None, Some(h)) => h,
                        (None, None) => 0,
                    };
                    if block_height > lowest + 1 {
                        follow_up = FollowUp::RequestState { lowest_block: lowest, record_start: false };
                        self.updating_state = true;
                    } else {
                        follow_up = FollowUp::ReportInvalid;
                    }
                }
                BlockOutcome::Rejected { stash: false, follow_up }
            },
        }
    }

    /// Whether a state component that arrives is stored: only while
    /// catching up.
    pub fn accepts_component(&self) -> (accepted: bool)
        ensures
            accepted == self.updating_state,
    {
        self.updating_state
    }

    /// Decides what follows the storing of a state component, given whether
    /// the core components are now all in and whether it is time to ask
    /// for the missing ones again. Once all are in, catching up ends and
    /// the kept blocks are worked through.
    pub fn after_component(&mut self, core_complete: bool, request_again: bool) -> (step: ComponentStep)
        ensures
            step == component_step(*old(self), core_complete, request_again),
            *final(self) == state_after_component(*old(self), step),
    {
        if !self.updating_state {
            ComponentStep::Ignore
        } else if core_complete {
            self.updating_state = false;
            self.processing_backlog = true;
            ComponentStep::BeginBacklog
        } else if request_again {
            ComponentStep::ClearReceived
        } else {
            ComponentStep::Wait
        }
    }

    /// Works through the kept blocks, oldest first, when asked to: given
    /// the height of the chain's last block and the heights of the kept
    /// blocks, returns which of them to process (those above the last
    /// block, in their order), and ends the work. Returns `None`, and
    /// changes nothing, when there is no work to do.
    pub fn plan_backlog(&mut self, last_block: Option<u128>, kept_heights: &Vec<u128>) -> (plan: Option<
        Vec<usize>,
    >)
        requires
            old(self).processing_backlog ==> last_block is Some,
        ensures
            old(self).processing_backlog ==> {
                &&& plan matches Some(p) && is_backlog_plan(p@, kept_heights@, last_block.unwrap())
                &&& *final(self) == state_after_backlog(*old(self))
            },
            !old(self).processing_backlog ==> plan is None && *final(self) == *old(self),
    {
        if !self.processing_backlog {
            return None;
        }
        let last = match last_block {
            Some(h) => h,
            None => 0,
        };
        let mut plan: Vec<usize> = Vec::new();
        let mut i: usize = 0;
        while i < kept_heights.len()
            invariant
                i <= kept_heights@.len(),
                forall|k: int| 0 <= k < plan@.len() ==> #[trigger] plan@[k] < i,
                forall|k: int| 0 <= k < plan@.len() ==> kept_heights@[#[trigger] plan@[k] as int] > last,
                forall|j: int, k: int| 0 <= j < k < plan@.len() ==> #[trigger] plan@[j] < #[trigger] plan@[k],
                forall|m: int| 0 <= m < i && kept_heights@[m] > last ==> #[trigger] plan@.contains(
                    m as usize,
                ),
            decreases kept_heights@.len() - i,
        {
            if kept_heights[i] > last {
                let ghost before = plan@;
                plan.push(i);
                proof {
                    assert(plan@ == before.push(i));
                    assert(plan@[before.len() as int] == i);
                    assert forall|m: int| 0 <= m < i + 1 && kept_heights@[m] > last implies #[trigger] plan@.contains(
                        m as usize,
                    ) by {
                        if m < i {
                            assert(before.contains(m as usize));
                            let k = choose|k: int| 0 <= k < before.len() && before[k] == m as usize;
                            assert(plan@[k] == m as usize);
                        } else {
                            assert(plan@[before.len() as int] == m as usize);
                        }
                    }
                }
            }
            i = i + 1;
        }
        self.processing_backlog = false;
        Some(plan)
    }
}

} // verus!
