use vstd::prelude::*;
use ritelinked::LinkedHashMap;
use crate::message_cache::{self, cache_insert, cache_len, cache_new};

verus! {

/// What the dashboard reads of the local blockchain: the names of the
/// blockchain's fields as listed on the chain page, the number of headers
/// in the chain and the number of blocks found invalid.
#[derive(Clone, Debug)]
pub struct ChainSnapshot {
    pub field_names: Vec<String>,
    pub chain_len: usize,
    pub invalid_len: usize,
}

/// What the dashboard reads of the miner: the names of the miner's fields
/// as listed on the mining page, and the number of claims in its claim map.
#[derive(Clone, Debug)]
pub struct MinerSnapshot {
    pub field_names: Vec<String>,
    pub claim_count: usize,
}

/// What the dashboard reads of a wallet: how many addresses it holds.
#[derive(Clone, Copy, Debug)]
pub struct WalletSnapshot {
    pub address_count: usize,
}

/// The dashboard's copy of the node's data, refreshed by the workers, and
/// the serialized messages received so far keyed by their arrival number.
#[derive(Clone, Debug)]
pub struct App {
    pub miner: Option<MinerSnapshot>,
    pub blockchain: Option<ChainSnapshot>,
    pub wallet: Option<WalletSnapshot>,
    pub message_cache: LinkedHashMap<u128, Vec<u8>>,
}

/// A refresh that a worker sends to the dashboard.
pub enum AppUpdate {
    Blockchain(ChainSnapshot),
    Miner(MinerSnapshot),
    Wallet(WalletSnapshot),
    /// A message that was received and read as a valid message, in its
    /// serialized form.
    Message(Vec<u8>),
}

impl App {
    /// The cached messages, oldest first.
    pub open spec fn messages(&self) -> Seq<Seq<u8>> {
        message_cache::cached_entries(self.message_cache).map_values(|e: (u128, Seq<u8>)| e.1)
    }

    /// Each cached message is keyed by its arrival number: the first by 0,
    /// the next by 1, and so on.
    pub open spec fn wf(&self) -> bool {
        forall|i: int|
            0 <= i < message_cache::cached_entries(self.message_cache).len() ==> #[trigger] message_cache::cached_entries(
                self.message_cache,
            )[i].0 == i
    }

    /// Stores a received message under the next arrival number.
    pub fn cache_message(&mut self, message: Vec<u8>)
        requires
            old(self).wf(),
        ensures
            final(self).wf(),
            message_cache::cached_entries(final(self).message_cache) == message_cache::cached_entries(
                old(self).message_cache,
            ).push((message_cache::cached_entries(old(self).message_cache).len() as u128, message@)),
            final(self).messages() == old(self).messages().push(message@),
            final(self).miner == old(self).miner,
            final(self).blockchain == old(self).blockchain,
            final(self).wallet == old(self).wallet,
    {
        let next = cache_len(&self.message_cache) as u128;
        let ghost before = message_cache::cached_entries(self.message_cache);
        let ghost bytes = message@;
        let previous = cache_insert(&mut self.message_cache, next, message);
        match previous {
            Some(p) => {
                proof {
                    let i = choose|i: int|
                        0 <= i < before.len() && #[trigger] before[i] == (next, p@)
                            && message_cache::cached_entries(self.message_cache) == before.remove(i).push(
                            (next, bytes),
                        );
                    assert(before[i].0 == i);
                }
            },
            None => {},
        }
        proof {
            assert(self.messages() =~= old(self).messages().push(bytes));
        }
    }

    /// Applies a refresh sent by a worker: a snapshot replaces the one it
    /// refreshes, and a message is cached under the next arrival number.
    pub fn apply_update(&mut self, update: AppUpdate)
        requires
            old(self).wf(),
        ensures
            final(self).wf(),
            match update {
                AppUpdate::Blockchain(c) => final(self).blockchain == Some(c)
                    && final(self).miner == old(self).miner
                    && final(self).wallet == old(self).wallet
                    && message_cache::cached_entries(final(self).message_cache) == message_cache::cached_entries(old(self).message_cache),
                AppUpdate::Miner(m) => final(self).miner == Some(m)
                    && final(self).blockchain == old(self).blockchain
                    && final(self).wallet == old(self).wallet
                    && message_cache::cached_entries(final(self).message_cache) == message_cache::cached_entries(old(self).message_cache),
                AppUpdate::Wallet(w) => final(self).wallet == Some(w)
                    && final(self).miner == old(self).miner
                    && final(self).blockchain == old(self).blockchain
                    && message_cache::cached_entries(final(self).message_cache) == message_cache::cached_entries(old(self).message_cache),
                AppUpdate::Message(bytes) => final(self).messages() == old(self).messages().push(bytes@)
                    && message_cache::cached_entries(final(self).message_cache) == message_cache::cached_entries(
                        old(self).message_cache,
                    ).push((message_cache::cached_entries(old(self).message_cache).len() as u128, bytes@))
                    && final(self).miner == old(self).miner
                    && final(self).blockchain == old(self).blockchain
                    && final(self).wallet == old(self).wallet,
            },
    {
        match update {
            AppUpdate::Blockchain(c) => {
                self.blockchain = Some(c);
            },
            AppUpdate::Miner(m) => {
                self.miner = Some(m);
            },
            AppUpdate::Wallet(w) => {
                self.wallet = Some(w);
            },
            AppUpdate::Message(bytes) => {
                self.cache_message(bytes);
            },
        }
    }
}

impl Default for App {
    fn default() -> (fresh: App)
        ensures
            fresh.miner is None,
            fresh.blockchain is None,
            fresh.wallet is None,
            message_cache::cached_entries(fresh.message_cache) == Seq::<(u128, Seq<u8>)>::empty(),
            fresh.wf(),
    {
        App { miner: None, blockchain: None, wallet: None, message_cache: cache_new() }
    }
}

} // verus!
