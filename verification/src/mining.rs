use vstd::prelude::*;
use crate::text::text_is_text;

verus! {

/// What the miner does when asked to mine the next block.
#[derive(Clone, Copy, Debug, PartialEq, Eq, Structural)]
pub enum MineStep {
    /// Not mining, or its own claim is unknown to its claim map: nothing.
    Idle,
    /// No block yet: mine the genesis block.
    MineGenesis,
    /// Its own claim holds the lowest pointer: mine the block.
    Mine,
    /// Another claim holds the lowest pointer: stop mining and check
    /// whether that claim was abandoned.
    StandAside,
    /// No claim holds a pointer for this nonce: raise the nonce.
    NonceUp,
}

/// What the miner does after an attempt to mine a block.
#[derive(Clone, Copy, Debug, PartialEq, Eq, Structural)]
pub enum MinedStep {
    /// A block was found: stop mining, announce it and hand it to the
    /// blockchain worker.
    Publish,
    /// None was found: try again.
    Retry,
}

/// What the miner does when asked to check for an abandoned claim.
#[derive(Clone, Debug, PartialEq, Eq)]
pub enum AbandonCheck {
    /// Nothing to check.
    Nothing,
    /// The holder of the lowest pointer still has time: check again later.
    Recheck,
    /// The holder of the lowest pointer, whose claim has this hash, ran out
    /// of time: restart the timer and vote its claim abandoned.
    Vote(String),
}

/// How many seconds the holder of the lowest pointer has to mine its block
/// before the other miners vote its claim abandoned.
pub open spec fn abandon_timeout() -> u128 {
    30
}

/// Whether the miner is mining.
#[derive(Clone, Copy, Debug, PartialEq, Eq, Structural)]
pub struct MiningStatus {
    pub mining: bool,
}

/// The step taken when asked to mine: `own_claim` is the hash of the
/// miner's own claim as its claim map holds it, `lowest_pointer` the hash
/// of the claim with the lowest pointer for the next nonce.
pub open spec fn mine_step(
    mining: bool,
    has_last_block: bool,
    own_claim: Option<Seq<char>>,
    lowest_pointer: Option<Seq<char>>,
) -> MineStep {
    if !mining {
        MineStep::Idle
    } else if !has_last_block {
        MineStep::MineGenesis
    } else {
        match own_claim {
            None => MineStep::Idle,
            Some(own) => match lowest_pointer {
                None => MineStep::NonceUp,
                Some(lowest) => if lowest == own {
                    MineStep::Mine
                } else {
                    MineStep::StandAside
                },
            },
        }
    }
}

/// The view of an optional string.
pub open spec fn opt_view(s: Option<&String>) -> Option<Seq<char>> {
    match s {
        Some(t) => Some(t@),
        None => None,
    }
}

/// How many of the hashes are `target`.
pub open spec fn count_matching(hashes: Seq<Seq<char>>, target: Seq<char>) -> nat
    decreases hashes.len(),
{
    if hashes.len() == 0 {
        0
    } else {
        count_matching(hashes.drop_last(), target) + (if hashes.last() == target {
            1nat
        } else {
            0nat
        })
    }
}

/// A vote to drop an abandoned claim carries when the votes are more than
/// three fifths of the other claims of the claim map (`claims` counts the
/// abandoned claim too); with no other claim, any vote carries.
pub open spec fn vote_carries(votes: nat, claims: nat) -> bool {
    if claims == 0 {
        false
    } else if claims == 1 {
        votes > 0
    } else {
        5 * votes > 3 * (claims - 1)
    }
}

impl MiningStatus {
    /// A miner starts out not mining.
    pub fn new() -> (status: MiningStatus)
        ensures
            !status.mining,
    {
        MiningStatus { mining: false }
    }

    /// Starts mining (on the start command, on a completed state update, or
    /// after another miner's claim was voted on); the caller then asks for a
    /// block to be mined.
    pub fn resume(&mut self)
        ensures
            final(self).mining,
    {
        self.mining = true;
    }

    /// Decides what to do when asked to mine the next block: the miner
    /// mines only when its own claim holds the lowest pointer, and stops
    /// mining when another claim holds it.
    pub fn on_mine_block(
        &mut self,
        has_last_block: bool,
        own_claim: Option<&String>,
        lowest_pointer: Option<&String>,
    ) -> (step: MineStep)
        ensures
            step == mine_step(old(self).mining, has_last_block, opt_view(own_claim), opt_view(lowest_pointer)),
            final(self).mining == (old(self).mining && step != MineStep::StandAside),
    {
        if !self.mining {
            return MineStep::Idle;
        }
        if !has_last_block {
            return MineStep::MineGenesis;
        }
        match own_claim {
            None => MineStep::Idle,
            Some(own) => match lowest_pointer {
                None => MineStep::NonceUp,
                Some(lowest) => {
                    if text_is_text(lowest, own) {
                        MineStep::Mine
                    } else {
                        self.mining = false;
                        MineStep::StandAside
                    }
                },
            },
        }
    }

    /// Decides what follows an attempt to mine a block (the next block or
    /// the genesis block): a block found stops the mining.
    pub fn after_mining(&mut self, found: bool) -> (step: MinedStep)
        ensures
            step == (if found {
                MinedStep::Publish
            } else {
                MinedStep::Retry
            }),
            final(self).mining == (old(self).mining && !found),
    {
        if found {
            self.mining = false;
            MinedStep::Publish
        } else {
            MinedStep::Retry
        }
    }
}

/// Decides what to do when asked to check for an abandoned claim: with a
/// last block, its own claim in the claim map and a claim holding the
/// lowest pointer, the miner votes that claim abandoned once more than
/// `abandon_timeout()` seconds passed since the last block, and checks
/// again later otherwise.
pub fn check_abandoned(
    has_last_block: bool,
    own_claim_known: bool,
    lowest_pointer: Option<&String>,
    seconds_elapsed: u128,
) -> (check: AbandonCheck)
    ensures
        match check {
            AbandonCheck::Nothing => !has_last_block || !own_claim_known || lowest_pointer is None,
            AbandonCheck::Recheck => has_last_block && own_claim_known && lowest_pointer is Some
                && seconds_elapsed <= abandon_timeout(),
            AbandonCheck::Vote(target) => {
                &&& has_last_block && own_claim_known
                &&& opt_view(lowest_pointer) == Some(target@)
                &&& seconds_elapsed > abandon_timeout()
            },
        },
{
    if has_last_block && own_claim_known {
        if let Some(p) = lowest_pointer {
            if seconds_elapsed > 30 {
                return AbandonCheck::Vote(p.clone());
            } else {
                return AbandonCheck::Recheck;
            }
        }
    }
    AbandonCheck::Nothing
}

/// The position of the first claim, in claim map order, whose hash is
/// `target`: the claim that the miner votes abandoned.
pub fn first_with_hash(hashes: &Vec<String>, target: &String) -> (found: Option<usize>)
    ensures
        match found {
            Some(i) => i < hashes@.len() && hashes@[i as int]@ == target@ && forall|j: int|
                0 <= j < i ==> #[trigger] hashes@[j]@ != target@,
            None => forall|j: int| 0 <= j < hashes@.len() ==> #[trigger] hashes@[j]@ != target@,
        },
{
    let mut i: usize = 0;
    while i < hashes.len()
        invariant
            i <= hashes@.len(),
            forall|j: int| 0 <= j < i ==> #[trigger] hashes@[j]@ != target@,
        decreases hashes@.len() - i,
    {
        if text_is_text(&hashes[i], target) {
            return Some(i);
        }
        i = i + 1;
    }
    None
}

/// Whether a vote to drop an abandoned claim carries, given the votes for
/// it and the number of claims in the claim map.
pub fn vote_carried(votes: usize, claims: usize) -> (carried: bool)
    ensures
        carried == vote_carries(votes as nat, claims as nat),
{
    if claims == 0 {
        false
    } else if claims == 1 {
        votes > 0
    } else {
        5 * (votes as u128) > 3 * ((claims - 1) as u128)
    }
}

/// The claim hashes of a list of (public key, claim hash) entries.
pub open spec fn entry_hashes(entries: Seq<(String, String)>) -> Seq<Seq<char>> {
    entries.map_values(|e: (String, String)| e.1@)
}

/// Whether an entry's claim hash is not `target`.
pub open spec fn hash_is_not(target: Seq<char>) -> spec_fn((String, String)) -> bool {
    |e: (String, String)| e.1@ != target
}

/// The votes after `voter` votes the claim with hash `target` abandoned:
/// like an insertion into the votes map, a voter's earlier vote is taken
/// out and the new one goes to the back.
pub open spec fn votes_after(votes: Seq<(String, String)>, voter: String, target: String, new_votes: Seq<
    (String, String),
>) -> bool {
    if forall|i: int| 0 <= i < votes.len() ==> #[trigger] votes[i].0@ != voter@ {
        new_votes == votes.push((voter, target))
    } else {
        exists|i: int|
            0 <= i < votes.len() && #[trigger] votes[i].0@ == voter@ && (forall|j: int|
                0 <= j < i ==> #[trigger] votes[j].0@ != voter@) && new_votes == votes.remove(i).push(
                (voter, target),
            )
    }
}

/// Records `voter`'s vote that the claim with hash `target` was abandoned,
/// and counts the votes for that hash. When the vote carries (see
/// `vote_carries`, against the number of claims before), every claim with
/// that hash is dropped from the claim map and the others keep their order;
/// otherwise the claim map is left as it is. Claims and votes are
/// (public key, claim hash) entries in map order.
pub fn record_vote(
    claims: &mut Vec<(String, String)>,
    votes: &mut Vec<(String, String)>,
    voter: &String,
    target: &String,
) -> (carried: bool)
    ensures
        votes_after(old(votes)@, *voter, *target, final(votes)@),
        carried == vote_carries(
            count_matching(entry_hashes(final(votes)@), target@),
            old(claims)@.len(),
        ),
        carried ==> final(claims)@ == old(claims)@.filter(hash_is_not(target@)),
        carried ==> forall|k: int|
            0 <= k < final(claims)@.len() ==> #[trigger] final(claims)@[k].1@ != target@,
        !carried ==> final(claims)@ == old(claims)@,
{
    let mut i: usize = 0;
    let mut found: Option<usize> = None;
    while i < votes.len()
        invariant_except_break
            found is None,
        invariant
            i <= votes@.len(),
            votes@ == old(votes)@,
            forall|j: int| 0 <= j < i ==> #[trigger] votes@[j].0@ != voter@,
        ensures
            found is None ==> i == votes@.len(),
            found matches Some(f) ==> f == i && i < votes@.len() && votes@[i as int].0@ == voter@,
        decreases votes@.len() - i,
    {
        if text_is_text(&votes[i].0, voter) {
            found = Some(i);
            break;
        }
        i = i + 1;
    }
    if let Some(idx) = found {
        let _ = votes.remove(idx);
    }
    votes.push((voter.clone(), target.clone()));
    proof {
        if found is None {
            assert(i == old(votes)@.len());
        } else {
            let idx = found.unwrap() as int;
            assert(old(votes)@[idx].0@ == voter@);
        }
    }

    let mut n: usize = 0;
    let mut k: usize = 0;
    while k < votes.len()
        invariant
            k <= votes@.len(),
            n <= k,
            n == count_matching(entry_hashes(votes@).take(k as int), target@),
        decreases votes@.len() - k,
    {
        proof {
            assert(entry_hashes(votes@).take(k + 1).drop_last() =~= entry_hashes(votes@).take(k as int));
        }
        if text_is_text(&votes[k].1, target) {
            n = n + 1;
        }
        k = k + 1;
    }
    proof {
        assert(entry_hashes(votes@).take(k as int) =~= entry_hashes(votes@));
    }

    let carried = vote_carried(n, claims.len());
    if carried {
        let ghost before = claims@;
        let mut kept: Vec<(String, String)> = Vec::new();
        let mut m: usize = 0;
        while m < claims.len()
            invariant
                m <= claims@.len(),
                claims@ == before,
                kept@ == before.take(m as int).filter(hash_is_not(target@)),
                forall|q: int| 0 <= q < kept@.len() ==> #[trigger] kept@[q].1@ != target@,
            decreases claims@.len() - m,
        {
            proof {
                assert(before.take(m + 1).drop_last() =~= before.take(m as int));
                reveal_with_fuel(Seq::<(String, String)>::filter, 1);
            }
            if !text_is_text(&claims[m].1, target) {
                let entry = (claims[m].0.clone(), claims[m].1.clone());
                kept.push(entry);
            }
            m = m + 1;
        }
        proof {
            assert(before.take(m as int) =~= before);
        }
        *claims = kept;
    }
    carried
}

} // verus!
