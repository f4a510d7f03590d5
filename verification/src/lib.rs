//! The decision logic of the VRRB node's terminal client: the menu and key
//! handling of the dashboard, the command line editor, the snapshot of node
//! data that the dashboard shows, and the decisions that the blockchain and
//! mining workers take on each command they receive.
//!
//! Every function here is a step from plain state and a plain event to the
//! next state and an action; the program around it performs the actions.
//! The laws that these steps obey are the proof functions of the modules
//! `navigation_laws` and `worker_laws`.

pub mod app_state;
pub mod chain_sync;
pub mod command_input;
pub mod menu;
pub mod message_cache;
pub mod mining;
pub mod navigation;
pub mod navigation_laws;
mod text;
pub mod ticker;
pub mod worker_laws;

pub use app_state::{App, AppUpdate, ChainSnapshot, MinerSnapshot, WalletSnapshot};
pub use chain_sync::{
    BlockOutcome, BlockVerdict, ComponentStep, FollowUp, PendingRoute, RejectionReason, SyncState,
};
pub use command_input::CommandInput;
pub use menu::{Event, InputMode, KeyCode, KeyPress, MenuItem};
pub use mining::{
    check_abandoned, first_with_hash, record_vote, vote_carried, AbandonCheck, MineStep, MinedStep,
    MiningStatus,
};
pub use navigation::{step_down, step_up, KeyAction, Navigation};
pub use ticker::{poll_timeout, tick_due, tick_rate};
