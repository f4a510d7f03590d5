use vrrb_cli::{CommandInput, InputMode, MenuItem};

#[test]
fn menu_items_have_their_tab_index() {
    assert_eq!(usize::from(MenuItem::Home), 0);
    assert_eq!(usize::from(MenuItem::Wallet), 1);
    assert_eq!(usize::from(MenuItem::Mining), 2);
    assert_eq!(usize::from(MenuItem::Network), 3);
    assert_eq!(usize::from(MenuItem::ChainData), 4);
    assert_eq!(usize::from(MenuItem::Commands), 5);
    assert_eq!(usize::from(MenuItem::HeaderChain), 6);
    assert_eq!(usize::from(MenuItem::InvalidBlocks), 7);
    assert_eq!(usize::from(MenuItem::ClaimMap), 8);
    assert_eq!(usize::from(MenuItem::TxnPool), 9);
    assert_eq!(usize::from(MenuItem::ClaimPool), 10);
    assert_eq!(usize::from(MenuItem::PendingClaims), 11);
    assert_eq!(usize::from(MenuItem::ConfirmedClaims), 12);
    assert_eq!(usize::from(MenuItem::PendingTxns), 13);
    assert_eq!(usize::from(MenuItem::ConfirmedTxns), 14);
}

#[test]
fn tab_indices_are_distinct() {
    let all = [
        MenuItem::Home,
        MenuItem::Wallet,
        MenuItem::Mining,
        MenuItem::Network,
        MenuItem::ChainData,
        MenuItem::Commands,
        MenuItem::HeaderChain,
        MenuItem::InvalidBlocks,
        MenuItem::ClaimMap,
        MenuItem::TxnPool,
        MenuItem::ClaimPool,
        MenuItem::PendingClaims,
        MenuItem::ConfirmedClaims,
        MenuItem::PendingTxns,
        MenuItem::ConfirmedTxns,
    ];
    for a in all.iter() {
        for b in all.iter() {
            assert_eq!(usize::from(*a) == usize::from(*b), a == b);
        }
        assert!(usize::from(*a) < 15);
    }
}

#[test]
fn command_input_starts_empty_in_normal_mode() {
    let input = CommandInput::default();
    assert_eq!(input.input, "");
    assert_eq!(input.input_mode, InputMode::Normal);
    assert!(input.command_cache.is_empty());
}

#[test]
fn typing_pasting_and_deleting() {
    let mut input = CommandInput::default();
    input.type_char('s');
    input.type_char('e');
    assert_eq!(input.input, "se");
    input.paste("nd 1");
    assert_eq!(input.input, "send 1");
    input.backspace();
    assert_eq!(input.input, "send ");
    let mut empty = CommandInput::default();
    empty.backspace();
    assert_eq!(empty.input, "");
}

#[test]
fn backspace_after_typing_restores_the_line() {
    let mut input = CommandInput::default();
    input.paste("mine");
    input.type_char('x');
    input.backspace();
    assert_eq!(input.input, "mine");
}

#[test]
fn submitting_moves_the_line_into_the_cache() {
    let mut input = CommandInput::default();
    input.paste("START_MINER");
    let line = input.submit();
    assert_eq!(line, "START_MINER");
    assert_eq!(input.input, "");
    assert_eq!(input.command_cache, vec!["START_MINER".to_string()]);
    input.paste("GET_HEIGHT");
    let second = input.submit();
    assert_eq!(second, "GET_HEIGHT");
    assert_eq!(
        input.command_cache,
        vec!["START_MINER".to_string(), "GET_HEIGHT".to_string()]
    );
}
