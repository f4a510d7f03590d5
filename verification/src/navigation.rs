use vstd::prelude::*;
use crate::app_state::App;
use crate::command_input::{self, CommandInput};
use crate::menu::{Event, InputMode, KeyCode, KeyPress, MenuItem};
use crate::text::text_is;

verus! {

/// The dashboard's page and the selected row of each of its lists (as a
/// list widget holds it: `None` when nothing is selected).
#[derive(Clone, Copy, Debug, PartialEq, Eq, Structural)]
pub struct Navigation {
    pub active_menu_item: MenuItem,
    pub wallet_list: Option<usize>,
    pub blockchain_fields: Option<usize>,
    pub last_hash_list: Option<usize>,
    pub invalid_block_list: Option<usize>,
    pub miner_fields: Option<usize>,
    pub claim_map_list: Option<usize>,
    pub txn_pool_list: Option<usize>,
    pub claim_pool_list: Option<usize>,
    pub txn_pool_status_list: Option<usize>,
    pub claim_pool_status_list: Option<usize>,
}

/// What the program around the dashboard has to do after a key press.
pub enum KeyAction {
    /// Nothing beyond redrawing.
    Nothing,
    /// Leave raw mode, clear the terminal and stop.
    Quit,
    /// Read the clipboard and paste it into the command line.
    Paste,
    /// Parse and run this submitted command line.
    Submit(String),
}

/// The number of rows of the status lists of the claim pool and the
/// transaction pool (pending, confirmed).
pub open spec fn pool_status_rows() -> usize {
    2
}

/// The row below `s` in a list of `n` rows, wrapping to the top.
pub open spec fn row_below(s: usize, n: usize) -> usize {
    if s >= n - 1 {
        0
    } else {
        (s + 1) as usize
    }
}

/// The row above `s` in a list of `n` rows, wrapping to the bottom.
pub open spec fn row_above(s: usize, n: usize) -> usize {
    if s > 0 {
        (s - 1) as usize
    } else {
        (n - 1) as usize
    }
}

/// The page that the Right key opens from the chain page when the field
/// named `name` is selected there.
pub open spec fn chain_field_page(name: Seq<char>) -> Option<MenuItem> {
    if name == "chain"@ {
        Some(MenuItem::HeaderChain)
    } else if name == "invalid"@ {
        Some(MenuItem::InvalidBlocks)
    } else {
        None
    }
}

/// The page that the Right key opens from the mining page when the field
/// named `name` is selected there.
pub open spec fn miner_field_page(name: Seq<char>) -> Option<MenuItem> {
    if name == "claim_map"@ {
        Some(MenuItem::ClaimMap)
    } else if name == "claim_pool"@ {
        Some(MenuItem::ClaimPool)
    } else if name == "txn_pool"@ {
        Some(MenuItem::TxnPool)
    } else {
        None
    }
}

impl Navigation {
    /// The dashboard opens on the home page with the first row of every
    /// list selected.
    pub open spec fn initial() -> Navigation {
        Navigation {
            active_menu_item: MenuItem::Home,
            wallet_list: Some(0),
            blockchain_fields: Some(0),
            last_hash_list: Some(0),
            invalid_block_list: Some(0),
            miner_fields: Some(0),
            claim_map_list: Some(0),
            txn_pool_list: Some(0),
            claim_pool_list: Some(0),
            txn_pool_status_list: Some(0),
            claim_pool_status_list: Some(0),
        }
    }

    pub fn new() -> (nav: Navigation)
        ensures
            nav == Navigation::initial(),
    {
        Navigation {
            active_menu_item: MenuItem::Home,
            wallet_list: Some(0),
            blockchain_fields: Some(0),
            last_hash_list: Some(0),
            invalid_block_list: Some(0),
            miner_fields: Some(0),
            claim_map_list: Some(0),
            txn_pool_list: Some(0),
            claim_pool_list: Some(0),
            txn_pool_status_list: Some(0),
            claim_pool_status_list: Some(0),
        }
    }

    /// The Down key: on a page with a list, the selection moves one row
    /// down, wrapping to the top; lists that may be empty move only when
    /// they are not.
    pub open spec fn moved_down(self, wallet_addresses: usize, app: App) -> Navigation {
        match self.active_menu_item {
            MenuItem::Wallet => match self.wallet_list {
                Some(s) => Navigation { wallet_list: Some(row_below(s, wallet_addresses)), ..self },
                None => self,
            },
            MenuItem::ChainData => match (self.blockchain_fields, app.blockchain) {
                (Some(s), Some(b)) => Navigation {
                    blockchain_fields: Some(row_below(s, b.field_names.len())),
                    ..self
                },
                _ => self,
            },
            MenuItem::HeaderChain => match (self.last_hash_list, app.blockchain) {
                (Some(s), Some(b)) => Navigation { last_hash_list: Some(row_below(s, b.chain_len)), ..self },
                _ => self,
            },
            MenuItem::InvalidBlocks => match (self.invalid_block_list, app.blockchain) {
                (Some(s), Some(b)) => if b.invalid_len > 0 {
                    Navigation { invalid_block_list: Some(row_below(s, b.invalid_len)), ..self }
                } else {
                    self
                },
                _ => self,
            },
            MenuItem::Mining => match (self.miner_fields, app.miner) {
                (Some(s), Some(m)) => Navigation {
                    miner_fields: Some(row_below(s, m.field_names.len())),
                    ..self
                },
                _ => self,
            },
            MenuItem::ClaimMap => match (self.claim_map_list, app.miner) {
                (Some(s), Some(m)) => if m.claim_count > 0 {
                    Navigation { claim_map_list: Some(row_below(s, m.claim_count)), ..self }
                } else {
                    self
                },
                _ => self,
            },
            MenuItem::ClaimPool => match (self.claim_pool_status_list, app.miner) {
                (Some(s), Some(_)) => Navigation {
                    claim_pool_status_list: Some(row_below(s, pool_status_rows())),
                    ..self
                },
                _ => self,
            },
            MenuItem::TxnPool => match (self.txn_pool_status_list, app.miner) {
                (Some(s), Some(_)) => Navigation {
                    txn_pool_status_list: Some(row_below(s, pool_status_rows())),
                    ..self
                },
                _ => self,
            },
            _ => self,
        }
    }

    /// The Up key: on a page with a list, the selection moves one row up,
    /// wrapping to the bottom; lists that may be empty move only when they
    /// are not.
    pub open spec fn moved_up(self, wallet_addresses: usize, app: App) -> Navigation {
        match self.active_menu_item {
            MenuItem::Wallet => match self.wallet_list {
                Some(s) => Navigation { wallet_list: Some(row_above(s, wallet_addresses)), ..self },
                None => self,
            },
            MenuItem::ChainData => match (self.blockchain_fields, app.blockchain) {
                (Some(s), Some(b)) => Navigation {
                    blockchain_fields: Some(row_above(s, b.field_names.len())),
                    ..self
                },
                _ => self,
            },
            MenuItem::HeaderChain => match (self.last_hash_list, app.blockchain) {
                (Some(s), Some(b)) => if b.chain_len > 0 {
                    Navigation { last_hash_list: Some(row_above(s, b.chain_len)), ..self }
                } else {
                    self
                },
                _ => self,
            },
            MenuItem::InvalidBlocks => match (self.invalid_block_list, app.blockchain) {
                (Some(s), Some(b)) => if b.invalid_len > 0 {
                    Navigation { invalid_block_list: Some(row_above(s, b.invalid_len)), ..self }
                } else {
                    self
                },
                _ => self,
            },
            MenuItem::Mining => match (self.miner_fields, app.miner) {
                (Some(s), Some(m)) => Navigation {
                    miner_fields: Some(row_above(s, m.field_names.len())),
                    ..self
                },
                _ => self,
            },
            MenuItem::ClaimMap => match (self.claim_map_list, app.miner) {
                (Some(s), Some(m)) => if m.claim_count > 0 {
                    Navigation { claim_map_list: Some(row_above(s, m.claim_count)), ..self }
                } else {
                    self
                },
                _ => self,
            },
            MenuItem::ClaimPool => match (self.claim_pool_status_list, app.miner) {
                (Some(s), Some(_)) => Navigation {
                    claim_pool_status_list: Some(row_above(s, pool_status_rows())),
                    ..self
                },
                _ => self,
            },
            MenuItem::TxnPool => match (self.txn_pool_status_list, app.miner) {
                (Some(s), Some(_)) => Navigation {
                    txn_pool_status_list: Some(row_above(s, pool_status_rows())),
                    ..self
                },
                _ => self,
            },
            _ => self,
        }
    }

    /// The page that the Right key opens: the chain's header list or its
    /// invalid blocks from the chain page, a claim pool or transaction pool
    /// status from those pools' pages, and the claim map or either pool
    /// from the mining page, as the selected row says.
    pub open spec fn page_right_of(self, app: App) -> MenuItem {
        match self.active_menu_item {
            MenuItem::ChainData => match (self.blockchain_fields, app.blockchain) {
                (Some(s), Some(b)) => match chain_field_page(b.field_names@[s as int]@) {
                    Some(p) => p,
                    None => self.active_menu_item,
                },
                _ => self.active_menu_item,
            },
            MenuItem::ClaimPool => match (self.claim_pool_status_list, app.miner) {
                (Some(s), Some(_)) => if s == 0 {
                    MenuItem::PendingClaims
                } else {
                    MenuItem::ConfirmedClaims
                },
                _ => self.active_menu_item,
            },
            MenuItem::TxnPool => match (self.txn_pool_status_list, app.miner) {
                (Some(s), Some(_)) => if s == 0 {
                    MenuItem::PendingTxns
                } else {
                    MenuItem::ConfirmedTxns
                },
                _ => self.active_menu_item,
            },
            MenuItem::Mining => match (self.miner_fields, app.miner) {
                (Some(s), Some(m)) => match miner_field_page(m.field_names@[s as int]@) {
                    Some(p) => p,
                    None => self.active_menu_item,
                },
                _ => self.active_menu_item,
            },
            _ => self.active_menu_item,
        }
    }

    /// The page that the Left key goes back to: the parent of a page that
    /// Right opens, and the page itself on every other page.
    pub open spec fn page_left_of(item: MenuItem) -> MenuItem {
        match item {
            MenuItem::HeaderChain | MenuItem::InvalidBlocks => MenuItem::ChainData,
            MenuItem::ClaimMap | MenuItem::ClaimPool | MenuItem::TxnPool => MenuItem::Mining,
            MenuItem::PendingClaims | MenuItem::ConfirmedClaims => MenuItem::ClaimPool,
            MenuItem::PendingTxns | MenuItem::ConfirmedTxns => MenuItem::TxnPool,
            _ => item,
        }
    }

    /// The page that a letter key opens in normal mode, if it opens one.
    pub open spec fn page_of_letter(c: char) -> Option<MenuItem> {
        if c == 'h' {
            Some(MenuItem::Home)
        } else if c == 'w' {
            Some(MenuItem::Wallet)
        } else if c == 'm' {
            Some(MenuItem::Mining)
        } else if c == 'n' {
            Some(MenuItem::Network)
        } else if c == 'd' {
            Some(MenuItem::ChainData)
        } else {
            None
        }
    }

    /// The inputs on which a key in normal mode cannot be handled: a list
    /// that is stepped through without a check for emptiness is empty, or
    /// the selected field of the chain or mining page is past the end of
    /// the list of field names.
    pub open spec fn normal_key_fails(self, code: KeyCode, wallet_addresses: usize, app: App) -> bool {
        let chain_fields_empty = app.blockchain matches Some(b) && b.field_names.len() == 0;
        let miner_fields_empty = app.miner matches Some(m) && m.field_names.len() == 0;
        let chain_empty = app.blockchain matches Some(b) && b.chain_len == 0;
        match code {
            KeyCode::Down => match self.active_menu_item {
                MenuItem::Wallet => self.wallet_list is Some && wallet_addresses == 0,
                MenuItem::ChainData => self.blockchain_fields is Some && chain_fields_empty,
                MenuItem::HeaderChain => self.last_hash_list is Some && chain_empty,
                MenuItem::Mining => self.miner_fields is Some && miner_fields_empty,
                _ => false,
            },
            KeyCode::Up => match self.active_menu_item {
                MenuItem::Wallet => self.wallet_list == Some(0usize) && wallet_addresses == 0,
                MenuItem::ChainData => self.blockchain_fields == Some(0usize) && chain_fields_empty,
                MenuItem::Mining => self.miner_fields == Some(0usize) && miner_fields_empty,
                _ => false,
            },
            KeyCode::Right => match (self.active_menu_item, self.blockchain_fields, self.miner_fields) {
                (MenuItem::ChainData, Some(s), _) => app.blockchain matches Some(b) && s
                    >= b.field_names.len(),
                (MenuItem::Mining, _, Some(s)) => app.miner matches Some(m) && s
                    >= m.field_names.len(),
                _ => false,
            },
            _ => false,
        }
    }
}

/// The row below `s` in a list of `n` rows, wrapping to the top.
pub fn step_down(s: usize, n: usize) -> (r: usize)
    requires
        n > 0,
    ensures
        r == row_below(s, n),
{
    if s >= n - 1 {
        0
    } else {
        s + 1
    }
}

/// The row above `s` in a list of `n` rows, wrapping to the bottom.
pub fn step_up(s: usize, n: usize) -> (r: usize)
    requires
        s == 0 ==> n > 0,
    ensures
        r == row_above(s, n),
{
    if s > 0 {
        s - 1
    } else {
        n - 1
    }
}

fn chain_page_for(name: &String) -> (page: Option<MenuItem>)
    ensures
        page == chain_field_page(name@),
{
    if text_is(name, "chain") {
        Some(MenuItem::HeaderChain)
    } else if text_is(name, "invalid") {
        Some(MenuItem::InvalidBlocks)
    } else {
        None
    }
}

fn miner_page_for(name: &String) -> (page: Option<MenuItem>)
    ensures
        page == miner_field_page(name@),
{
    if text_is(name, "claim_map") {
        Some(MenuItem::ClaimMap)
    } else if text_is(name, "claim_pool") {
        Some(MenuItem::ClaimPool)
    } else if text_is(name, "txn_pool") {
        Some(MenuItem::TxnPool)
    } else {
        None
    }
}


/// What a key press does in normal mode: the navigation moves as
/// `after_normal_key` says, `q` and only `q` asks to quit, `c` and `e`
/// start editing as `starts_editing` says, and the command line's text and
/// cache stay as they are.
pub open spec fn normal_key_effect(
    code: KeyCode,
    wallet_addresses: usize,
    app: App,
    nav0: Navigation,
    nav1: Navigation,
    in0: CommandInput,
    in1: CommandInput,
    action: KeyAction,
) -> bool {
    &&& nav1 == nav0.after_normal_key(code, wallet_addresses, app)
    &&& (action is Quit) == (code == KeyCode::Char('q'))
    &&& action is Quit || action is Nothing
    &&& in1.input_mode == (if nav0.starts_editing(code) {
        InputMode::Editing
    } else {
        in0.input_mode
    })
    &&& in1.input@ == in0.input@
    &&& in1.command_cache@ == in0.command_cache@
}

/// What a key press does while the command line is edited: a character is
/// typed (Control-V asks for the clipboard instead), Backspace deletes the
/// last character, Esc stops editing, Enter submits the line into the cache
/// and hands it out; Esc and Enter show the commands page, and the lists'
/// selections stay as they are.
pub open spec fn editing_key_effect(
    key: KeyPress,
    nav0: Navigation,
    nav1: Navigation,
    in0: CommandInput,
    in1: CommandInput,
    action: KeyAction,
) -> bool {
    &&& in1.input_mode == (if key.code == KeyCode::Esc {
        InputMode::Normal
    } else {
        in0.input_mode
    })
    &&& nav1 == (if key.code == KeyCode::Esc || key.code == KeyCode::Enter {
        Navigation { active_menu_item: MenuItem::Commands, ..nav0 }
    } else {
        nav0
    })
    &&& match key.code {
        KeyCode::Char(c) => if c == 'v' && key.control_only {
            action is Paste && in1.input@ == in0.input@
        } else {
            action is Nothing && in1.input@ == in0.input@.push(c)
        },
        KeyCode::Backspace => action is Nothing && in1.input@ == (if in0.input@.len() == 0 {
            in0.input@
        } else {
            in0.input@.drop_last()
        }),
        KeyCode::Enter => action matches KeyAction::Submit(line) && line@ == in0.input@
            && in1.input@ == Seq::<char>::empty(),
        _ => action is Nothing && in1.input@ == in0.input@,
    }
    &&& command_input::cache_view(in1.command_cache@) == (if key.code == KeyCode::Enter {
        command_input::cache_view(in0.command_cache@).push(in0.input@)
    } else {
        command_input::cache_view(in0.command_cache@)
    })
}

impl Navigation {
    /// Whether a key press in normal mode hits an input that cannot be
    /// handled (see `normal_key_fails`); the caller checks it before
    /// handling the key.
    pub fn key_fails(&self, code: KeyCode, wallet_addresses: usize, app: &App) -> (fails: bool)
        ensures
            fails == self.normal_key_fails(code, wallet_addresses, *app),
    {
        let chain_fields_empty = match &app.blockchain {
            Some(b) => b.field_names.len() == 0,
            None => false,
        };
        let miner_fields_empty = match &app.miner {
            Some(m) => m.field_names.len() == 0,
            None => false,
        };
        let chain_empty = match &app.blockchain {
            Some(b) => b.chain_len == 0,
            None => false,
        };
        match code {
            KeyCode::Down => match self.active_menu_item {
                MenuItem::Wallet => self.wallet_list.is_some() && wallet_addresses == 0,
                MenuItem::ChainData => self.blockchain_fields.is_some() && chain_fields_empty,
                MenuItem::HeaderChain => self.last_hash_list.is_some() && chain_empty,
                MenuItem::Mining => self.miner_fields.is_some() && miner_fields_empty,
                _ => false,
            },
            KeyCode::Up => match self.active_menu_item {
                MenuItem::Wallet => self.wallet_list == Some(0usize) && wallet_addresses == 0,
                MenuItem::ChainData => self.blockchain_fields == Some(0usize) && chain_fields_empty,
                MenuItem::Mining => self.miner_fields == Some(0usize) && miner_fields_empty,
                _ => false,
            },
            KeyCode::Right => match (self.active_menu_item, self.blockchain_fields, self.miner_fields) {
                (MenuItem::ChainData, Some(s), _) => match &app.blockchain {
                    Some(b) => s >= b.field_names.len(),
                    None => false,
                },
                (MenuItem::Mining, _, Some(s)) => match &app.miner {
                    Some(m) => s >= m.field_names.len(),
                    None => false,
                },
                _ => false,
            },
            _ => false,
        }
    }

    /// The navigation after a key press in normal mode (the letter keys
    /// open pages, the arrows move through lists and between pages).
    pub open spec fn after_normal_key(self, code: KeyCode, wallet_addresses: usize, app: App) -> Navigation {
        match code {
            KeyCode::Char(c) => match Navigation::page_of_letter(c) {
                Some(p) => Navigation { active_menu_item: p, ..self },
                None => self,
            },
            KeyCode::Down => self.moved_down(wallet_addresses, app),
            KeyCode::Up => self.moved_up(wallet_addresses, app),
            KeyCode::Right => Navigation { active_menu_item: self.page_right_of(app), ..self },
            KeyCode::Left => Navigation {
                active_menu_item: Navigation::page_left_of(self.active_menu_item),
                ..self
            },
            _ => self,
        }
    }

    /// Whether a key press in normal mode starts editing the command line:
    /// `c` on any page, `e` on the commands page.
    pub open spec fn starts_editing(self, code: KeyCode) -> bool {
        code == KeyCode::Char('c') || (code == KeyCode::Char('e') && self.active_menu_item
            == MenuItem::Commands)
    }

    fn move_down(&mut self, wallet_addresses: usize, app: &App)
        requires
            !old(self).normal_key_fails(KeyCode::Down, wallet_addresses, *app),
        ensures
            *final(self) == old(self).moved_down(wallet_addresses, *app),
    {
        match self.active_menu_item {
            MenuItem::Wallet => {
                if let Some(s) = self.wallet_list {
                    self.wallet_list = Some(step_down(s, wallet_addresses));
                }
            },
            MenuItem::ChainData => {
                if let (Some(s), Some(b)) = (self.blockchain_fields, &app.blockchain) {
                    self.blockchain_fields = Some(step_down(s, b.field_names.len()));
                }
            },
            MenuItem::HeaderChain => {
                if let (Some(s), Some(b)) = (self.last_hash_list, &app.blockchain) {
                    self.last_hash_list = Some(step_down(s, b.chain_len));
                }
            },
            MenuItem::InvalidBlocks => {
                if let (Some(s), Some(b)) = (self.invalid_block_list, &app.blockchain) {
                    if b.invalid_len > 0 {
                        self.invalid_block_list = Some(step_down(s, b.invalid_len));
                    }
                }
            },
            MenuItem::Mining => {
                if let (Some(s), Some(m)) = (self.miner_fields, &app.miner) {
                    self.miner_fields = Some(step_down(s, m.field_names.len()));
                }
            },
            MenuItem::ClaimMap => {
                if let (Some(s), Some(m)) = (self.claim_map_list, &app.miner) {
                    if m.claim_count > 0 {
                        self.claim_map_list = Some(step_down(s, m.claim_count));
                    }
                }
            },
            MenuItem::ClaimPool => {
                if let (Some(s), Some(_)) = (self.claim_pool_status_list, &app.miner) {
                    self.claim_pool_status_list = Some(step_down(s, 2));
                }
            },
            MenuItem::TxnPool => {
                if let (Some(s), Some(_)) = (self.txn_pool_status_list, &app.miner) {
                    self.txn_pool_status_list = Some(step_down(s, 2));
                }
            },
            _ => {},
        }
    }

    fn move_up(&mut self, wallet_addresses: usize, app: &App)
        requires
            !old(self).normal_key_fails(KeyCode::Up, wallet_addresses, *app),
        ensures
            *final(self) == old(self).moved_up(wallet_addresses, *app),
    {
        match self.active_menu_item {
            MenuItem::Wallet => {
                if let Some(s) = self.wallet_list {
                    self.wallet_list = Some(step_up(s, wallet_addresses));
                }
            },
            MenuItem::ChainData => {
                if let (Some(s), Some(b)) = (self.blockchain_fields, &app.blockchain) {
                    self.blockchain_fields = Some(step_up(s, b.field_names.len()));
                }
            },
            MenuItem::HeaderChain => {
                if let (Some(s), Some(b)) = (self.last_hash_list, &app.blockchain) {
                    if b.chain_len > 0 {
                        self.last_hash_list = Some(step_up(s, b.chain_len));
                    }
                }
            },
            MenuItem::InvalidBlocks => {
                if let (Some(s), Some(b)) = (self.invalid_block_list, &app.blockchain) {
                    if b.invalid_len > 0 {
                        self.invalid_block_list = Some(step_up(s, b.invalid_len));
                    }
                }
            },
            MenuItem::Mining => {
                if let (Some(s), Some(m)) = (self.miner_fields, &app.miner) {
                    self.miner_fields = Some(step_up(s, m.field_names.len()));
                }
            },
            MenuItem::ClaimMap => {
                if let (Some(s), Some(m)) = (self.claim_map_list, &app.miner) {
                    if m.claim_count > 0 {
                        self.claim_map_list = Some(step_up(s, m.claim_count));
                    }
                }
            },
            MenuItem::ClaimPool => {
                if let (Some(s), Some(_)) = (self.claim_pool_status_list, &app.miner) {
                    self.claim_pool_status_list = Some(step_up(s, 2));
                }
            },
            MenuItem::TxnPool => {
                if let (Some(s), Some(_)) = (self.txn_pool_status_list, &app.miner) {
                    self.txn_pool_status_list = Some(step_up(s, 2));
                }
            },
            _ => {},
        }
    }

    fn right_page(&self, app: &App) -> (page: MenuItem)
        requires
            !self.normal_key_fails(KeyCode::Right, 0, *app),
        ensures
            page == self.page_right_of(*app),
    {
        match self.active_menu_item {
            MenuItem::ChainData => {
                if let (Some(s), Some(b)) = (self.blockchain_fields, &app.blockchain) {
                    match chain_page_for(&b.field_names[s]) {
                        Some(p) => p,
                        None => self.active_menu_item,
                    }
                } else {
                    self.active_menu_item
                }
            },
            MenuItem::ClaimPool => {
                if let (Some(s), Some(_)) = (self.claim_pool_status_list, &app.miner) {
                    if s == 0 {
                        MenuItem::PendingClaims
                    } else {
                        MenuItem::ConfirmedClaims
                    }
                } else {
                    self.active_menu_item
                }
            },
            MenuItem::TxnPool => {
                if let (Some(s), Some(_)) = (self.txn_pool_status_list, &app.miner) {
                    if s == 0 {
                        MenuItem::PendingTxns
                    } else {
                        MenuItem::ConfirmedTxns
                    }
                } else {
                    self.active_menu_item
                }
            },
            MenuItem::Mining => {
                if let (Some(s), Some(m)) = (self.miner_fields, &app.miner) {
                    match miner_page_for(&m.field_names[s]) {
                        Some(p) => p,
                        None => self.active_menu_item,
                    }
                } else {
                    self.active_menu_item
                }
            },
            _ => self.active_menu_item,
        }
    }

    fn left_page(item: MenuItem) -> (page: MenuItem)
        ensures
            page == Navigation::page_left_of(item),
    {
        match item {
            MenuItem::HeaderChain | MenuItem::InvalidBlocks => MenuItem::ChainData,
            MenuItem::ClaimMap | MenuItem::ClaimPool | MenuItem::TxnPool => MenuItem::Mining,
            MenuItem::PendingClaims | MenuItem::ConfirmedClaims => MenuItem::ClaimPool,
            MenuItem::PendingTxns | MenuItem::ConfirmedTxns => MenuItem::TxnPool,
            _ => item,
        }
    }

    fn letter_page(c: char) -> (page: Option<MenuItem>)
        ensures
            page == Navigation::page_of_letter(c),
    {
        if c == 'h' {
            Some(MenuItem::Home)
        } else if c == 'w' {
            Some(MenuItem::Wallet)
        } else if c == 'm' {
            Some(MenuItem::Mining)
        } else if c == 'n' {
            Some(MenuItem::Network)
        } else if c == 'd' {
            Some(MenuItem::ChainData)
        } else {
            None
        }
    }

    /// Handles a key press while the command line is not being edited.
    /// `q` quits; `c` (anywhere) and `e` (on the commands page) start
    /// editing; `h`, `w`, `m`, `n`, `d` open the home, wallet, mining,
    /// network and chain pages; the arrows move through lists and between
    /// pages. The command line itself is left as it is.
    pub fn handle_normal_key(
        &mut self,
        input: &mut CommandInput,
        code: KeyCode,
        wallet_addresses: usize,
        app: &App,
    ) -> (action: KeyAction)
        requires
            !old(self).normal_key_fails(code, wallet_addresses, *app),
        ensures
            normal_key_effect(code, wallet_addresses, *app, *old(self), *final(self), *old(input), *final(input), action),
    {
        match code {
            KeyCode::Char(c) => {
                if c == 'q' {
                    return KeyAction::Quit;
                }
                if let Some(p) = Navigation::letter_page(c) {
                    self.active_menu_item = p;
                } else if c == 'c' {
                    input.input_mode = InputMode::Editing;
                } else if c == 'e' {
                    if let MenuItem::Commands = self.active_menu_item {
                        input.input_mode = InputMode::Editing;
                    }
                }
                KeyAction::Nothing
            },
            KeyCode::Down => {
                self.move_down(wallet_addresses, app);
                KeyAction::Nothing
            },
            KeyCode::Up => {
                self.move_up(wallet_addresses, app);
                KeyAction::Nothing
            },
            KeyCode::Right => {
                self.active_menu_item = self.right_page(app);
                KeyAction::Nothing
            },
            KeyCode::Left => {
                self.active_menu_item = Navigation::left_page(self.active_menu_item);
                KeyAction::Nothing
            },
            _ => KeyAction::Nothing,
        }
    }

    /// Handles a key press while the command line is being edited:
    /// characters are typed (Control-V asks for the clipboard instead),
    /// Backspace deletes the last character, Esc stops editing, and Enter
    /// submits the line; Esc and Enter show the commands page.
    pub fn handle_editing_key(&mut self, input: &mut CommandInput, key: KeyPress) -> (action: KeyAction)
        ensures
            editing_key_effect(key, *old(self), *final(self), *old(input), *final(input), action),
    {
        match key.code {
            KeyCode::Char(c) => {
                if c == 'v' && key.control_only {
                    KeyAction::Paste
                } else {
                    input.type_char(c);
                    KeyAction::Nothing
                }
            },
            KeyCode::Backspace => {
                input.backspace();
                KeyAction::Nothing
            },
            KeyCode::Esc => {
                input.input_mode = InputMode::Normal;
                self.active_menu_item = MenuItem::Commands;
                KeyAction::Nothing
            },
            KeyCode::Enter => {
                let line = input.submit();
                self.active_menu_item = MenuItem::Commands;
                KeyAction::Submit(line)
            },
            _ => KeyAction::Nothing,
        }
    }

    /// Handles an event of the input thread: ticks change nothing, and a
    /// key press is handled by the mode that the command line is in.
    pub fn handle_event(
        &mut self,
        input: &mut CommandInput,
        event: Event<KeyPress>,
        wallet_addresses: usize,
        app: &App,
    ) -> (action: KeyAction)
        requires
            old(input).input_mode == InputMode::Normal ==> match event {
                Event::Input(key) => !old(self).normal_key_fails(key.code, wallet_addresses, *app),
                Event::Tick => true,
            },
        ensures
            match event {
                Event::Tick => action is Nothing && *final(self) == *old(self) && final(input).input@
                    == old(input).input@ && final(input).input_mode == old(input).input_mode
                    && final(input).command_cache@ == old(input).command_cache@,
                Event::Input(key) => if old(input).input_mode == InputMode::Normal {
                    normal_key_effect(key.code, wallet_addresses, *app, *old(self), *final(self), *old(input), *final(input), action)
                } else {
                    editing_key_effect(key, *old(self), *final(self), *old(input), *final(input), action)
                },
            },
    {
        match event {
            Event::Tick => KeyAction::Nothing,
            Event::Input(key) => match input.input_mode {
                InputMode::Normal => self.handle_normal_key(input, key.code, wallet_addresses, app),
                InputMode::Editing => self.handle_editing_key(input, key),
            },
        }
    }
}

} // verus!