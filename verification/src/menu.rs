use vstd::prelude::*;

verus! {

/// The pages of the dashboard, in the order of their tab index.
#[derive(Clone, Copy, Debug, PartialEq, Eq, Structural)]
pub enum MenuItem {
    Home,
    Wallet,
    Mining,
    Network,
    ChainData,
    Commands,
    HeaderChain,
    InvalidBlocks,
    ClaimMap,
    TxnPool,
    ClaimPool,
    PendingClaims,
    ConfirmedClaims,
    PendingTxns,
    ConfirmedTxns,
}

/// The tab index of a page.
pub open spec fn menu_index(item: MenuItem) -> nat {
    match item {
        MenuItem::Home => 0,
        MenuItem::Wallet => 1,
        MenuItem::Mining => 2,
        MenuItem::Network => 3,
        MenuItem::ChainData => 4,
        MenuItem::Commands => 5,
        MenuItem::HeaderChain => 6,
        MenuItem::InvalidBlocks => 7,
        MenuItem::ClaimMap => 8,
        MenuItem::TxnPool => 9,
        MenuItem::ClaimPool => 10,
        MenuItem::PendingClaims => 11,
        MenuItem::ConfirmedClaims => 12,
        MenuItem::PendingTxns => 13,
        MenuItem::ConfirmedTxns => 14,
    }
}

impl From<MenuItem> for usize {
    fn from(input: MenuItem) -> (index: usize) {
        match input {
            MenuItem::Home => 0,
            MenuItem::Wallet => 1,
            MenuItem::Mining => 2,
            MenuItem::Network => 3,
            MenuItem::ChainData => 4,
            MenuItem::Commands => 5,
            MenuItem::HeaderChain => 6,
            MenuItem::InvalidBlocks => 7,
            MenuItem::ClaimMap => 8,
            MenuItem::TxnPool => 9,
            MenuItem::ClaimPool => 10,
            MenuItem::PendingClaims => 11,
            MenuItem::ConfirmedClaims => 12,
            MenuItem::PendingTxns => 13,
            MenuItem::ConfirmedTxns => 14,
        }
    }
}

impl vstd::std_specs::convert::FromSpecImpl<MenuItem> for usize {
    open spec fn obeys_from_spec() -> bool {
        true
    }

    open spec fn from_spec(v: MenuItem) -> usize {
        menu_index(v) as usize
    }
}

/// Whether the command line is being edited.
#[derive(Clone, Copy, Debug, PartialEq, Eq, Structural)]
pub enum InputMode {
    Normal,
    Editing,
}

/// What the input thread hands to the dashboard loop: a key press, or a
/// tick of the redraw clock.
pub enum Event<I> {
    Input(I),
    Tick,
}

/// The keys that the dashboard reacts to; every other key is `Other`.
#[derive(Clone, Copy, Debug, PartialEq, Eq, Structural)]
pub enum KeyCode {
    Char(char),
    Up,
    Down,
    Left,
    Right,
    Backspace,
    Esc,
    Enter,
    Other,
}

/// A key press: the key, and whether Control was the one modifier held.
#[derive(Clone, Copy, Debug, PartialEq, Eq, Structural)]
pub struct KeyPress {
    pub code: KeyCode,
    pub control_only: bool,
}

/// The tab index is below the number of pages, and two pages share an
/// index only if they are the same page.
pub proof fn lemma_menu_index_is_a_numbering(a: MenuItem, b: MenuItem)
    ensures
        menu_index(a) < 15,
        menu_index(a) == menu_index(b) ==> a == b,
{
}

} // verus!
