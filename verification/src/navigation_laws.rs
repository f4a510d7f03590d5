use vstd::prelude::*;
use crate::app_state::App;
use crate::command_input::CommandInput;
use crate::menu::{InputMode, KeyCode, KeyPress, MenuItem};
use crate::navigation::{self, KeyAction, Navigation};

verus! {

/// A selection that is `None` or below the number of rows `n`.
pub open spec fn row_in_range(selection: Option<usize>, n: nat) -> bool {
    selection matches Some(s) ==> s < n
}

impl Navigation {
    /// Every list that Down and Up move through has its selection on one of
    /// its rows: the wallet's addresses, the chain's fields, headers and
    /// invalid blocks (when there are any), the miner's fields and claims
    /// (when there are any), and the two pool status lists.
    pub open spec fn selections_in_range(self, wallet_addresses: usize, app: App) -> bool {
        &&& row_in_range(self.wallet_list, wallet_addresses as nat)
        &&& app.blockchain matches Some(b) ==> {
            &&& row_in_range(self.blockchain_fields, b.field_names.len() as nat)
            &&& row_in_range(self.last_hash_list, b.chain_len as nat)
            &&& b.invalid_len > 0 ==> row_in_range(self.invalid_block_list, b.invalid_len as nat)
        }
        &&& app.miner matches Some(m) ==> {
            &&& row_in_range(self.miner_fields, m.field_names.len() as nat)
            &&& m.claim_count > 0 ==> row_in_range(self.claim_map_list, m.claim_count as nat)
            &&& row_in_range(self.claim_pool_status_list, 2)
            &&& row_in_range(self.txn_pool_status_list, 2)
        }
    }
}

/// While every selection is on a row of its list, Down and Up can always be
/// handled, and they keep every selection on a row of its list.
pub proof fn lemma_moves_keep_selections_in_range(nav: Navigation, wallet_addresses: usize, app: App)
    requires
        nav.selections_in_range(wallet_addresses, app),
    ensures
        !nav.normal_key_fails(KeyCode::Down, wallet_addresses, app),
        !nav.normal_key_fails(KeyCode::Up, wallet_addresses, app),
        nav.moved_down(wallet_addresses, app).selections_in_range(wallet_addresses, app),
        nav.moved_up(wallet_addresses, app).selections_in_range(wallet_addresses, app),
{
    lemma_moves_on_active_list(nav, wallet_addresses, app);
}

/// Up undoes Down, and Down undoes Up, while every selection is on a row of
/// its list.
pub proof fn lemma_up_undoes_down(nav: Navigation, wallet_addresses: usize, app: App)
    requires
        nav.selections_in_range(wallet_addresses, app),
    ensures
        nav.moved_down(wallet_addresses, app).moved_up(wallet_addresses, app) == nav,
        nav.moved_up(wallet_addresses, app).moved_down(wallet_addresses, app) == nav,
{
    lemma_moves_on_active_list(nav, wallet_addresses, app);
}

proof fn lemma_moves_on_active_list(nav: Navigation, wallet_addresses: usize, app: App)
    requires
        nav.selections_in_range(wallet_addresses, app),
    ensures
        !nav.normal_key_fails(KeyCode::Down, wallet_addresses, app),
        !nav.normal_key_fails(KeyCode::Up, wallet_addresses, app),
        nav.moved_down(wallet_addresses, app).selections_in_range(wallet_addresses, app),
        nav.moved_up(wallet_addresses, app).selections_in_range(wallet_addresses, app),
        nav.moved_down(wallet_addresses, app).moved_up(wallet_addresses, app) == nav,
        nav.moved_up(wallet_addresses, app).moved_down(wallet_addresses, app) == nav,
{
    match nav.active_menu_item {
        MenuItem::Wallet => {
            if let Some(s) = nav.wallet_list {
                lemma_rows_round_trip(s, wallet_addresses);
            }
        },
        MenuItem::ChainData => {
            if let (Some(s), Some(b)) = (nav.blockchain_fields, app.blockchain) {
                lemma_rows_round_trip(s, b.field_names.len());
            }
        },
        MenuItem::HeaderChain => {
            if let (Some(s), Some(b)) = (nav.last_hash_list, app.blockchain) {
                lemma_rows_round_trip(s, b.chain_len);
            }
        },
        MenuItem::InvalidBlocks => {
            if let (Some(s), Some(b)) = (nav.invalid_block_list, app.blockchain) {
                if b.invalid_len > 0 {
                    lemma_rows_round_trip(s, b.invalid_len);
                }
            }
        },
        MenuItem::Mining => {
            if let (Some(s), Some(m)) = (nav.miner_fields, app.miner) {
                lemma_rows_round_trip(s, m.field_names.len());
            }
        },
        MenuItem::ClaimMap => {
            if let (Some(s), Some(m)) = (nav.claim_map_list, app.miner) {
                if m.claim_count > 0 {
                    lemma_rows_round_trip(s, m.claim_count);
                }
            }
        },
        MenuItem::ClaimPool => {
            if let (Some(s), Some(m)) = (nav.claim_pool_status_list, app.miner) {
                lemma_rows_round_trip(s, 2);
            }
        },
        MenuItem::TxnPool => {
            if let (Some(s), Some(m)) = (nav.txn_pool_status_list, app.miner) {
                lemma_rows_round_trip(s, 2);
            }
        },
        _ => {},
    }
}

proof fn lemma_rows_round_trip(s: usize, n: usize)
    requires
        s < n,
    ensures
        navigation::row_below(s, n) < n,
        navigation::row_above(s, n) < n,
        navigation::row_above(navigation::row_below(s, n), n) == s,
        navigation::row_below(navigation::row_above(s, n), n) == s,
{
}

/// Left goes back to the page from which Right opened a page.
pub proof fn lemma_left_undoes_right(nav: Navigation, app: App)
    requires
        nav.page_right_of(app) != nav.active_menu_item,
    ensures
        Navigation::page_left_of(nav.page_right_of(app)) == nav.active_menu_item,
{
}

/// Left changes nothing on the pages that a letter key or `Esc` opens.
pub proof fn lemma_left_stays_on_top_pages(item: MenuItem)
    requires
        item == MenuItem::Home || item == MenuItem::Wallet || item == MenuItem::Mining || item
            == MenuItem::Network || item == MenuItem::ChainData || item == MenuItem::Commands,
    ensures
        Navigation::page_left_of(item) == item,
{
}

/// Backspace right after typing a character gives back the command line
/// and the navigation as they were.
pub proof fn lemma_backspace_undoes_typing(
    c: char,
    nav0: Navigation,
    nav1: Navigation,
    nav2: Navigation,
    in0: CommandInput,
    in1: CommandInput,
    in2: CommandInput,
    a1: KeyAction,
    a2: KeyAction,
)
    requires
        navigation::editing_key_effect(KeyPress { code: KeyCode::Char(c), control_only: false }, nav0, nav1, in0, in1, a1),
        navigation::editing_key_effect(KeyPress { code: KeyCode::Backspace, control_only: false }, nav1, nav2, in1, in2, a2),
    ensures
        in2.input@ == in0.input@,
        in2.input_mode == in0.input_mode,
        nav2 == nav0,
        a1 is Nothing && a2 is Nothing,
{
    assert(in0.input@.push(c).drop_last() =~= in0.input@);
}

/// Esc leaves editing for the commands page, and `c` there takes editing
/// up again with the command line as it was.
pub proof fn lemma_escape_then_resume(
    nav0: Navigation,
    nav1: Navigation,
    nav2: Navigation,
    in0: CommandInput,
    in1: CommandInput,
    in2: CommandInput,
    a1: KeyAction,
    a2: KeyAction,
    wallet_addresses: usize,
    app: App,
)
    requires
        in0.input_mode == InputMode::Editing,
        navigation::editing_key_effect(KeyPress { code: KeyCode::Esc, control_only: false }, nav0, nav1, in0, in1, a1),
        navigation::normal_key_effect(KeyCode::Char('c'), wallet_addresses, app, nav1, nav2, in1, in2, a2),
    ensures
        in1.input_mode == InputMode::Normal,
        nav1.active_menu_item == MenuItem::Commands,
        in2.input_mode == InputMode::Editing,
        in2.input@ == in0.input@,
        nav2.active_menu_item == MenuItem::Commands,
{
}

/// On every page with a list of `n > 0` rows, Down on row `s` selects
/// `s + 1`, or the first row 0 when `s` is the last row (or past it), and Up
/// selects `s - 1`, or the last row `n - 1` when `s` is the first; no other
/// part of the navigation changes. The lists are the wallet's addresses,
/// the chain's fields, headers and invalid blocks, the miner's fields and
/// claims, and the two pool status lists of two rows.
pub proof fn lemma_down_and_up_move_one_row(nav: Navigation, wallet_addresses: usize, app: App, s: usize)
    ensures
        ({
            let down = nav.after_normal_key(KeyCode::Down, wallet_addresses, app);
            let up = nav.after_normal_key(KeyCode::Up, wallet_addresses, app);
            let below = |n: usize| if s + 1 < n { (s + 1) as usize } else { 0usize };
            let above = |n: usize| if s > 0 { (s - 1) as usize } else { (n - 1) as usize };
            &&& nav.active_menu_item == MenuItem::Wallet && nav.wallet_list == Some(s) && wallet_addresses
                > 0 ==> {
                &&& down == Navigation { wallet_list: Some(below(wallet_addresses)), ..nav }
                &&& up == Navigation { wallet_list: Some(above(wallet_addresses)), ..nav }
            }
            &&& nav.active_menu_item == MenuItem::ChainData && nav.blockchain_fields == Some(s)
                && app.blockchain is Some && app.blockchain.unwrap().field_names.len() > 0 ==> {
                let n = app.blockchain.unwrap().field_names.len();
                &&& down == Navigation { blockchain_fields: Some(below(n)), ..nav }
                &&& up == Navigation { blockchain_fields: Some(above(n)), ..nav }
            }
            &&& nav.active_menu_item == MenuItem::HeaderChain && nav.last_hash_list == Some(s)
                && app.blockchain is Some && app.blockchain.unwrap().chain_len > 0 ==> {
                let n = app.blockchain.unwrap().chain_len;
                &&& down == Navigation { last_hash_list: Some(below(n)), ..nav }
                &&& up == Navigation { last_hash_list: Some(above(n)), ..nav }
            }
            &&& nav.active_menu_item == MenuItem::InvalidBlocks && nav.invalid_block_list == Some(s)
                && app.blockchain is Some && app.blockchain.unwrap().invalid_len > 0 ==> {
                let n = app.blockchain.unwrap().invalid_len;
                &&& down == Navigation { invalid_block_list: Some(below(n)), ..nav }
                &&& up == Navigation { invalid_block_list: Some(above(n)), ..nav }
            }
            &&& nav.active_menu_item == MenuItem::Mining && nav.miner_fields == Some(s)
                && app.miner is Some && app.miner.unwrap().field_names.len() > 0 ==> {
                let n = app.miner.unwrap().field_names.len();
                &&& down == Navigation { miner_fields: Some(below(n)), ..nav }
                &&& up == Navigation { miner_fields: Some(above(n)), ..nav }
            }
            &&& nav.active_menu_item == MenuItem::ClaimMap && nav.claim_map_list == Some(s)
                && app.miner is Some && app.miner.unwrap().claim_count > 0 ==> {
                let n = app.miner.unwrap().claim_count;
                &&& down == Navigation { claim_map_list: Some(below(n)), ..nav }
                &&& up == Navigation { claim_map_list: Some(above(n)), ..nav }
            }
            &&& nav.active_menu_item == MenuItem::ClaimPool && nav.claim_pool_status_list == Some(s)
                && app.miner is Some ==> {
                &&& down == Navigation { claim_pool_status_list: Some(below(2)), ..nav }
                &&& up == Navigation { claim_pool_status_list: Some(above(2)), ..nav }
            }
            &&& nav.active_menu_item == MenuItem::TxnPool && nav.txn_pool_status_list == Some(s)
                && app.miner is Some ==> {
                &&& down == Navigation { txn_pool_status_list: Some(below(2)), ..nav }
                &&& up == Navigation { txn_pool_status_list: Some(above(2)), ..nav }
            }
        }),
{
}

/// Right on the chain page opens the header chain exactly when the selected
/// field is named "chain" and the invalid blocks when it is named
/// "invalid", and leaves the page as it is for any other name; on the
/// mining page it opens the claim map, the claim pool or the transaction
/// pool when the selected field is named "claim_map", "claim_pool" or
/// "txn_pool", and leaves the page as it is otherwise. Only the page
/// changes.
pub proof fn lemma_right_opens_the_named_field(nav: Navigation, wallet_addresses: usize, app: App, s: usize)
    ensures
        ({
            let right = nav.after_normal_key(KeyCode::Right, wallet_addresses, app);
            &&& right == Navigation { active_menu_item: right.active_menu_item, ..nav }
            &&& nav.active_menu_item == MenuItem::ChainData && nav.blockchain_fields == Some(s)
                && app.blockchain is Some && s < app.blockchain.unwrap().field_names.len() ==> {
                let name = app.blockchain.unwrap().field_names@[s as int]@;
                &&& name == "chain"@ ==> right.active_menu_item == MenuItem::HeaderChain
                &&& name != "chain"@ && name == "invalid"@ ==> right.active_menu_item
                    == MenuItem::InvalidBlocks
                &&& name != "chain"@ && name != "invalid"@ ==> right.active_menu_item
                    == MenuItem::ChainData
            }
            &&& nav.active_menu_item == MenuItem::Mining && nav.miner_fields == Some(s)
                && app.miner is Some && s < app.miner.unwrap().field_names.len() ==> {
                let name = app.miner.unwrap().field_names@[s as int]@;
                &&& name == "claim_map"@ ==> right.active_menu_item == MenuItem::ClaimMap
                &&& name != "claim_map"@ && name == "claim_pool"@ ==> right.active_menu_item
                    == MenuItem::ClaimPool
                &&& name != "claim_map"@ && name != "claim_pool"@ && name == "txn_pool"@
                    ==> right.active_menu_item == MenuItem::TxnPool
                &&& name != "claim_map"@ && name != "claim_pool"@ && name != "txn_pool"@
                    ==> right.active_menu_item == MenuItem::Mining
            }
            &&& nav.active_menu_item == MenuItem::ClaimPool && nav.claim_pool_status_list == Some(s)
                && app.miner is Some ==> right.active_menu_item == (if s == 0 {
                MenuItem::PendingClaims
            } else {
                MenuItem::ConfirmedClaims
            })
            &&& nav.active_menu_item == MenuItem::TxnPool && nav.txn_pool_status_list == Some(s)
                && app.miner is Some ==> right.active_menu_item == (if s == 0 {
                MenuItem::PendingTxns
            } else {
                MenuItem::ConfirmedTxns
            })
        }),
{
}

/// In normal mode, whatever page is active: `h`, `w`, `m`, `n` and `d` make
/// Home, Wallet, Mining, Network and ChainData the active page and change
/// nothing else; `c` starts editing, and `e` starts editing on the commands
/// page; none of them quits or touches the command line's text or cache;
/// `q` quits and changes nothing.
pub proof fn lemma_letter_keys_act_on_every_page(
    c: char,
    wallet_addresses: usize,
    app: App,
    nav0: Navigation,
    nav1: Navigation,
    in0: CommandInput,
    in1: CommandInput,
    action: KeyAction,
)
    requires
        navigation::normal_key_effect(KeyCode::Char(c), wallet_addresses, app, nav0, nav1, in0, in1, action),
    ensures
        c == 'h' ==> nav1 == (Navigation { active_menu_item: MenuItem::Home, ..nav0 }),
        c == 'w' ==> nav1 == (Navigation { active_menu_item: MenuItem::Wallet, ..nav0 }),
        c == 'm' ==> nav1 == (Navigation { active_menu_item: MenuItem::Mining, ..nav0 }),
        c == 'n' ==> nav1 == (Navigation { active_menu_item: MenuItem::Network, ..nav0 }),
        c == 'd' ==> nav1 == (Navigation { active_menu_item: MenuItem::ChainData, ..nav0 }),
        c == 'c' ==> in1.input_mode == InputMode::Editing && nav1 == nav0,
        c == 'e' && nav0.active_menu_item == MenuItem::Commands ==> in1.input_mode
            == InputMode::Editing && nav1 == nav0,
        c == 'e' && nav0.active_menu_item != MenuItem::Commands ==> in1.input_mode == in0.input_mode
            && nav1 == nav0,
        c != 'c' && c != 'e' ==> in1.input_mode == in0.input_mode,
        c == 'q' ==> (action is Quit) && nav1 == nav0,
        c != 'q' ==> (action is Nothing),
        in1.input@ == in0.input@,
        in1.command_cache@ == in0.command_cache@,
{
}


} // verus!
