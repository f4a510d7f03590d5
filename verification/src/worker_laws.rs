use vstd::prelude::*;
use crate::chain_sync::{
    self, BlockOutcome, BlockVerdict, ComponentStep, FollowUp, RejectionReason, SyncState,
};
use crate::mining::{self, MineStep};

verus! {

/// While the worker catches up, no verdict on a block asks the network for
/// its state again: one request per catching up.
pub proof fn lemma_one_state_request_per_catch_up(
    state: SyncState,
    verdict: BlockVerdict,
    block_height: u128,
    oldest_future: Option<u128>,
    child: Option<u128>,
    genesis: Option<u128>,
)
    requires
        state.updating_state,
    ensures
        !chain_sync::requests_state(chain_sync::block_outcome(state, verdict, block_height, oldest_future, child, genesis)),
        chain_sync::state_after_outcome(state, chain_sync::block_outcome(state, verdict, block_height, oldest_future, child, genesis))
            == state,
{
}

/// A refused block is kept for later exactly when it is out of sequence.
pub proof fn lemma_only_out_of_sequence_blocks_are_kept(
    state: SyncState,
    reason: RejectionReason,
    block_height: u128,
    oldest_future: Option<u128>,
    child: Option<u128>,
    genesis: Option<u128>,
)
    ensures
        chain_sync::block_outcome(state, BlockVerdict::Rejected(reason), block_height, oldest_future, child, genesis)
            matches BlockOutcome::Rejected { stash, .. } && stash == (reason
            == RejectionReason::BlockOutOfSequence),
{
}

/// An accepted block changes no flag, and a refused one is never
/// confirmed.
pub proof fn lemma_accepted_blocks_are_confirmed(
    state: SyncState,
    verdict: BlockVerdict,
    block_height: u128,
    oldest_future: Option<u128>,
    child: Option<u128>,
    genesis: Option<u128>,
)
    ensures
        (chain_sync::block_outcome(state, verdict, block_height, oldest_future, child, genesis)
            == BlockOutcome::Confirmed) == (verdict == BlockVerdict::Accepted),
        verdict == BlockVerdict::Accepted ==> chain_sync::state_after_outcome(
            state,
            chain_sync::block_outcome(state, verdict, block_height, oldest_future, child, genesis),
        ) == state,
{
}

/// A full catching up brings an idle worker back to idle: a block out of
/// sequence (with the kept blocks' oldest height known) starts catching
/// up, the arrival of the last core component starts the work through the
/// kept blocks, and that work ends it.
pub proof fn lemma_catch_up_returns_to_idle(
    state: SyncState,
    block_height: u128,
    oldest_future: u128,
    child: Option<u128>,
    genesis: Option<u128>,
    request_again: bool,
)
    requires
        !state.updating_state,
        !state.processing_backlog,
    ensures
        ({
            let outcome = chain_sync::block_outcome(
                state,
                BlockVerdict::Rejected(RejectionReason::BlockOutOfSequence),
                block_height,
                Some(oldest_future),
                child,
                genesis,
            );
            let waiting = chain_sync::state_after_outcome(state, outcome);
            let step = chain_sync::component_step(waiting, true, request_again);
            let working = chain_sync::state_after_component(waiting, step);
            &&& chain_sync::requests_state(outcome)
            &&& waiting.updating_state
            &&& step == ComponentStep::BeginBacklog
            &&& working.processing_backlog && !working.updating_state
            &&& chain_sync::state_after_backlog(working) == state
        }),
{
}

/// The kept blocks to process are determined: two plans for the same kept
/// heights and last block are the same list.
pub proof fn lemma_backlog_plan_is_unique(p1: Seq<usize>, p2: Seq<usize>, heights: Seq<u128>, last: u128)
    requires
        chain_sync::is_backlog_plan(p1, heights, last),
        chain_sync::is_backlog_plan(p2, heights, last),
    ensures
        p1 == p2,
{
    assert forall|x: usize| p1.contains(x) implies p2.contains(x) by {
        let k = choose|k: int| 0 <= k < p1.len() && p1[k] == x;
        assert(heights[p1[k] as int] > last);
        assert(p2.contains(x as int as usize));
    }
    assert forall|x: usize| p2.contains(x) implies p1.contains(x) by {
        let k = choose|k: int| 0 <= k < p2.len() && p2[k] == x;
        assert(heights[p2[k] as int] > last);
        assert(p1.contains(x as int as usize));
    }
    lemma_sorted_same_elements(p1, p2);
}

/// Two strictly increasing lists with the same elements are equal.
proof fn lemma_sorted_same_elements(a: Seq<usize>, b: Seq<usize>)
    requires
        forall|j: int, k: int| 0 <= j < k < a.len() ==> #[trigger] a[j] < #[trigger] a[k],
        forall|j: int, k: int| 0 <= j < k < b.len() ==> #[trigger] b[j] < #[trigger] b[k],
        forall|x: usize| a.contains(x) ==> b.contains(x),
        forall|x: usize| b.contains(x) ==> a.contains(x),
    ensures
        a == b,
    decreases a.len(),
{
    if a.len() == 0 {
        if b.len() > 0 {
            assert(b.contains(b[0]));
        }
        assert(a =~= b);
    } else {
        assert(a.contains(a[0]));
        assert(b.len() > 0);
        assert(b.contains(b[0]));
        let ia = choose|k: int| 0 <= k < a.len() && a[k] == b[0];
        let ib = choose|k: int| 0 <= k < b.len() && b[k] == a[0];
        assert(a[0] <= a[ia]);
        assert(b[0] <= b[ib]);
        assert(a[0] == b[0]);
        let a1 = a.drop_first();
        let b1 = b.drop_first();
        assert forall|x: usize| a1.contains(x) implies b1.contains(x) by {
            let k = choose|k: int| 0 <= k < a1.len() && a1[k] == x;
            assert(a[k + 1] == x);
            assert(a[0] < a[k + 1]);
            assert(b.contains(x));
            let m = choose|m: int| 0 <= m < b.len() && b[m] == x;
            assert(m != 0);
            assert(b1[m - 1] == x);
        }
        assert forall|x: usize| b1.contains(x) implies a1.contains(x) by {
            let k = choose|k: int| 0 <= k < b1.len() && b1[k] == x;
            assert(b[k + 1] == x);
            assert(b[0] < b[k + 1]);
            assert(a.contains(x));
            let m = choose|m: int| 0 <= m < a.len() && a[m] == x;
            assert(m != 0);
            assert(a1[m - 1] == x);
        }
        assert forall|j: int, k: int| 0 <= j < k < a1.len() implies #[trigger] a1[j] < #[trigger] a1[k] by {
            assert(a[j + 1] < a[k + 1]);
        }
        assert forall|j: int, k: int| 0 <= j < k < b1.len() implies #[trigger] b1[j] < #[trigger] b1[k] by {
            assert(b[j + 1] < b[k + 1]);
        }
        lemma_sorted_same_elements(a1, b1);
        assert(a =~= b) by {
            assert forall|i: int| 0 <= i < a.len() implies a[i] == b[i] by {
                if i > 0 {
                    assert(a1[i - 1] == b1[i - 1]);
                }
            }
        }
    }
}

/// A block refused for a reason other than being out of sequence or on a
/// shorter chain, while the worker is not catching up: when its height is
/// more than one above the chain's last block (its genesis block when it
/// has no other), the worker asks the network for its state from that
/// block on and starts catching up; at every other height, at or below that
/// block included, it reports the block's miner as out of consensus. The
/// block is never kept, and the backlog flag is untouched.
pub proof fn lemma_refused_block_is_reported_or_state_requested(
    state: SyncState,
    block_height: u128,
    oldest_future: Option<u128>,
    child: Option<u128>,
    genesis: Option<u128>,
    lowest: u128,
)
    requires
        !state.updating_state,
        child == Some(lowest) || (child is None && genesis == Some(lowest)),
    ensures
        ({
            let outcome = chain_sync::block_outcome(
                state,
                BlockVerdict::Rejected(RejectionReason::Other),
                block_height,
                oldest_future,
                child,
                genesis,
            );
            let next = chain_sync::state_after_outcome(state, outcome);
            &&& block_height <= lowest + 1 ==> outcome == BlockOutcome::Rejected {
                stash: false,
                follow_up: FollowUp::ReportInvalid,
            }
            &&& block_height <= lowest + 1 ==> next == state
            &&& block_height > lowest + 1 ==> outcome == BlockOutcome::Rejected {
                stash: false,
                follow_up: FollowUp::RequestState { lowest_block: lowest, record_start: false },
            }
            &&& block_height > lowest + 1 ==> next.updating_state && next.processing_backlog
                == state.processing_backlog
        }),
{
}

/// A block out of sequence is always kept; when the worker is neither
/// catching up nor working through kept blocks, it asks for the network's
/// state from the oldest kept block on, notes the time, and starts catching
/// up; otherwise nothing else follows.
pub proof fn lemma_out_of_sequence_block_is_kept(
    state: SyncState,
    block_height: u128,
    oldest: u128,
    child: Option<u128>,
    genesis: Option<u128>,
)
    ensures
        ({
            let outcome = chain_sync::block_outcome(
                state,
                BlockVerdict::Rejected(RejectionReason::BlockOutOfSequence),
                block_height,
                Some(oldest),
                child,
                genesis,
            );
            &&& !state.updating_state && !state.processing_backlog ==> outcome
                == BlockOutcome::Rejected {
                stash: true,
                follow_up: FollowUp::RequestState { lowest_block: oldest, record_start: true },
            }
            &&& !state.updating_state && !state.processing_backlog
                ==> chain_sync::state_after_outcome(state, outcome) == (SyncState {
                updating_state: true,
                processing_backlog: false,
            })
            &&& (state.updating_state || state.processing_backlog) ==> outcome
                == BlockOutcome::Rejected { stash: true, follow_up: FollowUp::Nothing }
        }),
{
}

/// The miner mines a block only on its own turn: when the claim holding
/// the lowest pointer is its own.
pub proof fn lemma_mines_only_on_own_turn(
    mining: bool,
    has_last_block: bool,
    own_claim: Option<Seq<char>>,
    lowest_pointer: Option<Seq<char>>,
)
    ensures
        mining::mine_step(mining, has_last_block, own_claim, lowest_pointer) == MineStep::Mine ==> {
            &&& mining && has_last_block
            &&& own_claim is Some
            &&& lowest_pointer == own_claim
        },
        !mining ==> mining::mine_step(mining, has_last_block, own_claim, lowest_pointer) == MineStep::Idle,
{
}

/// More votes never make a carried vote fail, and the votes of all the
/// other claims always carry.
pub proof fn lemma_votes_are_monotone(fewer: nat, more: nat, claims: nat)
    requires
        fewer <= more,
    ensures
        mining::vote_carries(fewer, claims) ==> mining::vote_carries(more, claims),
        claims >= 1 ==> mining::vote_carries((claims - 1) as nat, claims) == (claims >= 2),
        !mining::vote_carries(0, claims),
{
}

/// No more votes are counted than there are voters.
pub proof fn lemma_count_at_most_voters(hashes: Seq<Seq<char>>, target: Seq<char>)
    ensures
        mining::count_matching(hashes, target) <= hashes.len(),
    decreases hashes.len(),
{
    if hashes.len() > 0 {
        lemma_count_at_most_voters(hashes.drop_last(), target);
    }
}

} // verus!
