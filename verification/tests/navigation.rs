use vrrb_cli::{
    step_down, step_up, App, AppUpdate, ChainSnapshot, CommandInput, Event, InputMode, KeyAction,
    KeyCode, KeyPress, MenuItem, MinerSnapshot, Navigation,
};

fn key(code: KeyCode) -> Event<KeyPress> {
    Event::Input(KeyPress { code, control_only: false })
}

fn names(list: &[&str]) -> Vec<String> {
    list.iter().map(|s| s.to_string()).collect()
}

fn loaded_app() -> App {
    let mut app = App::default();
    app.apply_update(AppUpdate::Blockchain(ChainSnapshot {
        field_names: names(&["genesis", "child", "parent", "chain", "chain_db", "invalid"]),
        chain_len: 5,
        invalid_len: 0,
    }));
    app.apply_update(AppUpdate::Miner(MinerSnapshot {
        field_names: names(&["claim", "mining", "claim_map", "txn_pool", "claim_pool", "last_block"]),
        claim_count: 3,
    }));
    app
}

fn press(nav: &mut Navigation, input: &mut CommandInput, code: KeyCode, app: &App) -> KeyAction {
    nav.handle_event(input, key(code), 3, app)
}

#[test]
fn dashboard_opens_on_home_with_first_rows_selected() {
    let nav = Navigation::new();
    assert_eq!(nav.active_menu_item, MenuItem::Home);
    assert_eq!(nav.wallet_list, Some(0));
    assert_eq!(nav.blockchain_fields, Some(0));
    assert_eq!(nav.claim_pool_status_list, Some(0));
    assert_eq!(nav.txn_pool_list, Some(0));
}

#[test]
fn letters_open_pages_and_q_quits() {
    let app = loaded_app();
    let mut nav = Navigation::new();
    let mut input = CommandInput::default();
    let pages = [
        ('w', MenuItem::Wallet),
        ('m', MenuItem::Mining),
        ('n', MenuItem::Network),
        ('d', MenuItem::ChainData),
        ('h', MenuItem::Home),
    ];
    for (c, page) in pages.iter() {
        let action = press(&mut nav, &mut input, KeyCode::Char(*c), &app);
        assert!(matches!(action, KeyAction::Nothing));
        assert_eq!(nav.active_menu_item, *page);
    }
    let before = nav;
    let action = press(&mut nav, &mut input, KeyCode::Char('z'), &app);
    assert!(matches!(action, KeyAction::Nothing));
    assert_eq!(nav, before);
    let action = press(&mut nav, &mut input, KeyCode::Char('q'), &app);
    assert!(matches!(action, KeyAction::Quit));
    assert_eq!(nav, before);
}

#[test]
fn ticks_change_nothing() {
    let app = loaded_app();
    let mut nav = Navigation::new();
    let mut input = CommandInput::default();
    let before = nav;
    let action = nav.handle_event(&mut input, Event::Tick, 3, &app);
    assert!(matches!(action, KeyAction::Nothing));
    assert_eq!(nav, before);
    assert_eq!(input.input_mode, InputMode::Normal);
}

#[test]
fn wallet_rows_wrap_both_ways() {
    let app = loaded_app();
    let mut nav = Navigation::new();
    let mut input = CommandInput::default();
    press(&mut nav, &mut input, KeyCode::Char('w'), &app);
    press(&mut nav, &mut input, KeyCode::Down, &app);
    assert_eq!(nav.wallet_list, Some(1));
    press(&mut nav, &mut input, KeyCode::Down, &app);
    assert_eq!(nav.wallet_list, Some(2));
    press(&mut nav, &mut input, KeyCode::Down, &app);
    assert_eq!(nav.wallet_list, Some(0));
    press(&mut nav, &mut input, KeyCode::Up, &app);
    assert_eq!(nav.wallet_list, Some(2));
    press(&mut nav, &mut input, KeyCode::Up, &app);
    assert_eq!(nav.wallet_list, Some(1));
}

#[test]
fn up_undoes_down_on_every_list() {
    let app = loaded_app();
    let pages = [
        MenuItem::Wallet,
        MenuItem::ChainData,
        MenuItem::HeaderChain,
        MenuItem::Mining,
        MenuItem::ClaimMap,
        MenuItem::ClaimPool,
        MenuItem::TxnPool,
    ];
    for page in pages.iter() {
        for start in 0..2usize {
            let mut nav = Navigation::new();
            nav.active_menu_item = *page;
            nav.wallet_list = Some(start);
            nav.blockchain_fields = Some(start);
            nav.last_hash_list = Some(start);
            nav.miner_fields = Some(start);
            nav.claim_map_list = Some(start);
            nav.claim_pool_status_list = Some(start);
            nav.txn_pool_status_list = Some(start);
            let before = nav;
            let mut input = CommandInput::default();
            press(&mut nav, &mut input, KeyCode::Down, &app);
            assert_ne!(nav, before);
            press(&mut nav, &mut input, KeyCode::Up, &app);
            assert_eq!(nav, before);
            press(&mut nav, &mut input, KeyCode::Up, &app);
            press(&mut nav, &mut input, KeyCode::Down, &app);
            assert_eq!(nav, before);
        }
    }
}

#[test]
fn empty_lists_do_not_move() {
    let app = loaded_app();
    let mut nav = Navigation::new();
    let mut input = CommandInput::default();
    nav.active_menu_item = MenuItem::InvalidBlocks;
    let before = nav;
    press(&mut nav, &mut input, KeyCode::Down, &app);
    press(&mut nav, &mut input, KeyCode::Up, &app);
    assert_eq!(nav, before);
    let no_data = App::default();
    nav.active_menu_item = MenuItem::Mining;
    let before = nav;
    press(&mut nav, &mut input, KeyCode::Down, &no_data);
    press(&mut nav, &mut input, KeyCode::Right, &no_data);
    assert_eq!(nav, before);
}

#[test]
fn pool_status_lists_have_two_rows() {
    let app = loaded_app();
    let mut nav = Navigation::new();
    let mut input = CommandInput::default();
    nav.active_menu_item = MenuItem::ClaimPool;
    press(&mut nav, &mut input, KeyCode::Down, &app);
    assert_eq!(nav.claim_pool_status_list, Some(1));
    press(&mut nav, &mut input, KeyCode::Down, &app);
    assert_eq!(nav.claim_pool_status_list, Some(0));
    press(&mut nav, &mut input, KeyCode::Up, &app);
    assert_eq!(nav.claim_pool_status_list, Some(1));
}

#[test]
fn right_opens_the_selected_chain_field_and_left_goes_back() {
    let app = loaded_app();
    let mut nav = Navigation::new();
    let mut input = CommandInput::default();
    press(&mut nav, &mut input, KeyCode::Char('d'), &app);
    nav.blockchain_fields = Some(3);
    press(&mut nav, &mut input, KeyCode::Right, &app);
    assert_eq!(nav.active_menu_item, MenuItem::HeaderChain);
    press(&mut nav, &mut input, KeyCode::Left, &app);
    assert_eq!(nav.active_menu_item, MenuItem::ChainData);
    nav.blockchain_fields = Some(5);
    press(&mut nav, &mut input, KeyCode::Right, &app);
    assert_eq!(nav.active_menu_item, MenuItem::InvalidBlocks);
    press(&mut nav, &mut input, KeyCode::Left, &app);
    assert_eq!(nav.active_menu_item, MenuItem::ChainData);
    nav.blockchain_fields = Some(0);
    press(&mut nav, &mut input, KeyCode::Right, &app);
    assert_eq!(nav.active_menu_item, MenuItem::ChainData);
}

#[test]
fn right_and_left_through_the_mining_pages() {
    let app = loaded_app();
    let mut nav = Navigation::new();
    let mut input = CommandInput::default();
    press(&mut nav, &mut input, KeyCode::Char('m'), &app);
    nav.miner_fields = Some(2);
    press(&mut nav, &mut input, KeyCode::Right, &app);
    assert_eq!(nav.active_menu_item, MenuItem::ClaimMap);
    press(&mut nav, &mut input, KeyCode::Left, &app);
    assert_eq!(nav.active_menu_item, MenuItem::Mining);
    nav.miner_fields = Some(4);
    press(&mut nav, &mut input, KeyCode::Right, &app);
    assert_eq!(nav.active_menu_item, MenuItem::ClaimPool);
    press(&mut nav, &mut input, KeyCode::Right, &app);
    assert_eq!(nav.active_menu_item, MenuItem::PendingClaims);
    press(&mut nav, &mut input, KeyCode::Left, &app);
    assert_eq!(nav.active_menu_item, MenuItem::ClaimPool);
    nav.claim_pool_status_list = Some(1);
    press(&mut nav, &mut input, KeyCode::Right, &app);
    assert_eq!(nav.active_menu_item, MenuItem::ConfirmedClaims);
    press(&mut nav, &mut input, KeyCode::Left, &app);
    press(&mut nav, &mut input, KeyCode::Left, &app);
    assert_eq!(nav.active_menu_item, MenuItem::Mining);
    nav.miner_fields = Some(3);
    press(&mut nav, &mut input, KeyCode::Right, &app);
    assert_eq!(nav.active_menu_item, MenuItem::TxnPool);
    press(&mut nav, &mut input, KeyCode::Right, &app);
    assert_eq!(nav.active_menu_item, MenuItem::PendingTxns);
    press(&mut nav, &mut input, KeyCode::Left, &app);
    assert_eq!(nav.active_menu_item, MenuItem::TxnPool);
    nav.txn_pool_status_list = Some(1);
    press(&mut nav, &mut input, KeyCode::Right, &app);
    assert_eq!(nav.active_menu_item, MenuItem::ConfirmedTxns);
}

#[test]
fn left_stays_on_top_pages() {
    let app = loaded_app();
    for page in [MenuItem::Home, MenuItem::Wallet, MenuItem::Network, MenuItem::Commands].iter() {
        let mut nav = Navigation::new();
        let mut input = CommandInput::default();
        nav.active_menu_item = *page;
        press(&mut nav, &mut input, KeyCode::Left, &app);
        assert_eq!(nav.active_menu_item, *page);
    }
}

#[test]
fn editing_keys() {
    let app = loaded_app();
    let mut nav = Navigation::new();
    let mut input = CommandInput::default();
    press(&mut nav, &mut input, KeyCode::Char('c'), &app);
    assert_eq!(input.input_mode, InputMode::Editing);
    assert_eq!(nav.active_menu_item, MenuItem::Home);
    press(&mut nav, &mut input, KeyCode::Char('q'), &app);
    press(&mut nav, &mut input, KeyCode::Char('v'), &app);
    assert_eq!(input.input, "qv");
    let paste = nav.handle_event(
        &mut input,
        Event::Input(KeyPress { code: KeyCode::Char('v'), control_only: true }),
        3,
        &app,
    );
    assert!(matches!(paste, KeyAction::Paste));
    assert_eq!(input.input, "qv");
    press(&mut nav, &mut input, KeyCode::Backspace, &app);
    assert_eq!(input.input, "q");
    press(&mut nav, &mut input, KeyCode::Down, &app);
    assert_eq!(input.input, "q");
    let action = press(&mut nav, &mut input, KeyCode::Enter, &app);
    match action {
        KeyAction::Submit(line) => assert_eq!(line, "q"),
        _ => panic!("Enter must submit the line"),
    }
    assert_eq!(input.input, "");
    assert_eq!(input.command_cache, vec!["q".to_string()]);
    assert_eq!(nav.active_menu_item, MenuItem::Commands);
    assert_eq!(input.input_mode, InputMode::Editing);
    press(&mut nav, &mut input, KeyCode::Esc, &app);
    assert_eq!(input.input_mode, InputMode::Normal);
    assert_eq!(nav.active_menu_item, MenuItem::Commands);
}

#[test]
fn e_edits_only_on_the_commands_page() {
    let app = loaded_app();
    let mut nav = Navigation::new();
    let mut input = CommandInput::default();
    press(&mut nav, &mut input, KeyCode::Char('e'), &app);
    assert_eq!(input.input_mode, InputMode::Normal);
    nav.active_menu_item = MenuItem::Commands;
    press(&mut nav, &mut input, KeyCode::Char('e'), &app);
    assert_eq!(input.input_mode, InputMode::Editing);
}

#[test]
fn escape_then_c_resumes_the_same_line() {
    let app = loaded_app();
    let mut nav = Navigation::new();
    let mut input = CommandInput::default();
    press(&mut nav, &mut input, KeyCode::Char('c'), &app);
    press(&mut nav, &mut input, KeyCode::Char('a'), &app);
    press(&mut nav, &mut input, KeyCode::Esc, &app);
    press(&mut nav, &mut input, KeyCode::Char('c'), &app);
    assert_eq!(input.input_mode, InputMode::Editing);
    assert_eq!(input.input, "a");
    assert_eq!(nav.active_menu_item, MenuItem::Commands);
}

#[test]
fn row_steps() {
    assert_eq!(step_down(0, 3), 1);
    assert_eq!(step_down(2, 3), 0);
    assert_eq!(step_down(7, 3), 0);
    assert_eq!(step_up(0, 3), 2);
    assert_eq!(step_up(2, 3), 1);
    assert_eq!(step_up(5, 3), 4);
}

#[test]
fn keys_that_cannot_be_handled_are_detected() {
    let app = loaded_app();
    let mut nav = Navigation::new();
    nav.active_menu_item = MenuItem::Wallet;
    assert!(nav.key_fails(KeyCode::Down, 0, &app));
    assert!(nav.key_fails(KeyCode::Up, 0, &app));
    assert!(!nav.key_fails(KeyCode::Down, 3, &app));
    nav.wallet_list = Some(1);
    assert!(!nav.key_fails(KeyCode::Up, 0, &app));
    nav.active_menu_item = MenuItem::ChainData;
    nav.blockchain_fields = Some(6);
    assert!(nav.key_fails(KeyCode::Right, 3, &app));
    nav.blockchain_fields = Some(5);
    assert!(!nav.key_fails(KeyCode::Right, 3, &app));
    nav.active_menu_item = MenuItem::Mining;
    nav.miner_fields = Some(9);
    assert!(nav.key_fails(KeyCode::Right, 3, &app));
    let mut empty_chain = App::default();
    empty_chain.apply_update(AppUpdate::Blockchain(ChainSnapshot {
        field_names: Vec::new(),
        chain_len: 0,
        invalid_len: 0,
    }));
    nav.active_menu_item = MenuItem::HeaderChain;
    assert!(nav.key_fails(KeyCode::Down, 3, &empty_chain));
    assert!(!nav.key_fails(KeyCode::Up, 3, &empty_chain));
    nav.active_menu_item = MenuItem::ChainData;
    nav.blockchain_fields = Some(0);
    assert!(nav.key_fails(KeyCode::Down, 3, &empty_chain));
    assert!(nav.key_fails(KeyCode::Up, 3, &empty_chain));
}
