use test_coin::{
    initialize_account, mint, new, transfer, CoinAccount, CoinSettings, Constructor, ErrorCode,
    Identity, InitializeAccount, Mint, Transfer,
};

fn id(byte: u8) -> Identity {
    Identity { bytes: [byte; 32] }
}

fn account(owner: u8, balance: u64) -> CoinAccount {
    CoinAccount { authority: id(owner), balance }
}

fn settings(owner: u8, total_supply: u64) -> CoinSettings {
    CoinSettings { authority: id(owner), total_supply }
}

#[test]
fn new_creates_an_empty_supply_record() {
    let mut ctx = Constructor { settings: None, authority: id(1) };
    assert_eq!(new(&mut ctx), Ok(()));
    assert_eq!(ctx.settings, Some(settings(1, 0)));
    assert_eq!(ctx.authority, id(1));
}

#[test]
fn new_refuses_a_second_supply_record() {
    let mut ctx = Constructor { settings: Some(settings(1, 100)), authority: id(2) };
    assert_eq!(new(&mut ctx), Err(ErrorCode::AlreadyInitialized));
    assert_eq!(ctx.settings, Some(settings(1, 100)));
    assert_eq!(ctx.authority, id(2));
}

#[test]
fn new_refuses_the_same_authority_again() {
    let mut ctx = Constructor { settings: None, authority: id(1) };
    assert_eq!(new(&mut ctx), Ok(()));
    assert_eq!(new(&mut ctx), Err(ErrorCode::AlreadyInitialized));
    assert_eq!(ctx.settings, Some(settings(1, 0)));
}

#[test]
fn initialize_account_creates_an_empty_account() {
    let mut ctx = InitializeAccount { coin_account: None, authority: id(3) };
    assert_eq!(initialize_account(&mut ctx), Ok(()));
    assert_eq!(ctx.coin_account, Some(account(3, 0)));
    assert_eq!(ctx.authority, id(3));
}

#[test]
fn initialize_account_refuses_a_second_account() {
    let mut ctx = InitializeAccount { coin_account: Some(account(3, 25)), authority: id(3) };
    assert_eq!(initialize_account(&mut ctx), Err(ErrorCode::AlreadyInitialized));
    assert_eq!(ctx.coin_account, Some(account(3, 25)));
}

#[test]
fn mint_raises_balance_and_supply_together() {
    let mut ctx =
        Mint { coin_settings: settings(1, 10), authority: id(1), target_account: account(2, 3) };
    assert_eq!(mint(&mut ctx, 100), Ok(()));
    assert_eq!(ctx.coin_settings, settings(1, 110));
    assert_eq!(ctx.target_account, account(2, 103));
    assert_eq!(ctx.authority, id(1));
}

#[test]
fn mint_of_nothing_succeeds_and_changes_nothing() {
    let mut ctx =
        Mint { coin_settings: settings(1, 10), authority: id(1), target_account: account(2, 3) };
    assert_eq!(mint(&mut ctx, 0), Ok(()));
    assert_eq!(ctx.coin_settings, settings(1, 10));
    assert_eq!(ctx.target_account, account(2, 3));
}

#[test]
fn mint_of_nothing_succeeds_at_the_limit() {
    let mut ctx = Mint {
        coin_settings: settings(1, u64::MAX),
        authority: id(1),
        target_account: account(2, u64::MAX),
    };
    assert_eq!(mint(&mut ctx, 0), Ok(()));
    assert_eq!(ctx.coin_settings.total_supply, u64::MAX);
    assert_eq!(ctx.target_account.balance, u64::MAX);
}

#[test]
fn mint_by_a_stranger_is_unauthorized() {
    let mut ctx =
        Mint { coin_settings: settings(1, 10), authority: id(9), target_account: account(2, 3) };
    assert_eq!(mint(&mut ctx, 50), Err(ErrorCode::Unauthorized));
    assert_eq!(ctx.coin_settings, settings(1, 10));
    assert_eq!(ctx.target_account, account(2, 3));
}

#[test]
fn mint_by_the_account_holder_is_unauthorized() {
    let mut ctx =
        Mint { coin_settings: settings(1, 10), authority: id(2), target_account: account(2, 3) };
    assert_eq!(mint(&mut ctx, 1), Err(ErrorCode::Unauthorized));
    assert_eq!(ctx.target_account.balance, 3);
    assert_eq!(ctx.coin_settings.total_supply, 10);
}

#[test]
fn mint_by_a_stranger_is_unauthorized_even_when_it_would_overflow() {
    let mut ctx = Mint {
        coin_settings: settings(1, u64::MAX),
        authority: id(9),
        target_account: account(2, 3),
    };
    assert_eq!(mint(&mut ctx, 1), Err(ErrorCode::Unauthorized));
    assert_eq!(ctx.coin_settings.total_supply, u64::MAX);
    assert_eq!(ctx.target_account.balance, 3);
}

#[test]
fn mint_up_to_the_limit_succeeds() {
    let mut ctx = Mint {
        coin_settings: settings(1, u64::MAX - 5),
        authority: id(1),
        target_account: account(2, 0),
    };
    assert_eq!(mint(&mut ctx, 5), Ok(()));
    assert_eq!(ctx.coin_settings.total_supply, u64::MAX);
    assert_eq!(ctx.target_account.balance, 5);
}

#[test]
fn mint_beyond_the_supply_limit_overflows() {
    let mut ctx = Mint {
        coin_settings: settings(1, u64::MAX - 5),
        authority: id(1),
        target_account: account(2, 0),
    };
    assert_eq!(mint(&mut ctx, 6), Err(ErrorCode::Overflow));
    assert_eq!(ctx.coin_settings.total_supply, u64::MAX - 5);
    assert_eq!(ctx.target_account.balance, 0);
}

#[test]
fn mint_beyond_the_balance_limit_overflows_and_leaves_the_supply() {
    let mut ctx = Mint {
        coin_settings: settings(1, 7),
        authority: id(1),
        target_account: account(2, u64::MAX),
    };
    assert_eq!(mint(&mut ctx, 1), Err(ErrorCode::Overflow));
    assert_eq!(ctx.coin_settings.total_supply, 7);
    assert_eq!(ctx.target_account.balance, u64::MAX);
}

#[test]
fn transfer_moves_the_exact_amount() {
    let mut ctx =
        Transfer { from_account: account(1, 100), target_account: account(2, 7), authority: id(1) };
    assert_eq!(transfer(&mut ctx, 40), Ok(()));
    assert_eq!(ctx.from_account, account(1, 60));
    assert_eq!(ctx.target_account, account(2, 47));
    assert_eq!(ctx.authority, id(1));
}

#[test]
fn transfer_of_the_whole_balance_empties_the_source() {
    let mut ctx =
        Transfer { from_account: account(1, 100), target_account: account(2, 0), authority: id(1) };
    assert_eq!(transfer(&mut ctx, 100), Ok(()));
    assert_eq!(ctx.from_account.balance, 0);
    assert_eq!(ctx.target_account.balance, 100);
}

#[test]
fn transfer_of_nothing_succeeds_and_changes_nothing() {
    let mut ctx = Transfer {
        from_account: account(1, 0),
        target_account: account(2, u64::MAX),
        authority: id(1),
    };
    assert_eq!(transfer(&mut ctx, 0), Ok(()));
    assert_eq!(ctx.from_account.balance, 0);
    assert_eq!(ctx.target_account.balance, u64::MAX);
}

#[test]
fn transfer_of_more_than_the_balance_is_refused() {
    let mut ctx =
        Transfer { from_account: account(1, 60), target_account: account(2, 40), authority: id(1) };
    assert_eq!(transfer(&mut ctx, 1000), Err(ErrorCode::InsufficientBalance));
    assert_eq!(ctx.from_account, account(1, 60));
    assert_eq!(ctx.target_account, account(2, 40));
}

#[test]
fn transfer_of_one_more_than_the_balance_is_refused() {
    let mut ctx =
        Transfer { from_account: account(1, 60), target_account: account(2, 40), authority: id(1) };
    assert_eq!(transfer(&mut ctx, 61), Err(ErrorCode::InsufficientBalance));
    assert_eq!(ctx.from_account.balance, 60);
    assert_eq!(ctx.target_account.balance, 40);
}

#[test]
fn transfer_of_more_than_the_balance_is_refused_for_a_stranger_too() {
    let mut ctx =
        Transfer { from_account: account(1, 60), target_account: account(2, 40), authority: id(9) };
    assert_eq!(transfer(&mut ctx, 61), Err(ErrorCode::InsufficientBalance));
    assert_eq!(ctx.from_account.balance, 60);
    assert_eq!(ctx.target_account.balance, 40);
}

#[test]
fn transfer_by_a_stranger_is_unauthorized() {
    let mut ctx =
        Transfer { from_account: account(1, 60), target_account: account(2, 40), authority: id(9) };
    assert_eq!(transfer(&mut ctx, 10), Err(ErrorCode::Unauthorized));
    assert_eq!(ctx.from_account, account(1, 60));
    assert_eq!(ctx.target_account, account(2, 40));
}

#[test]
fn transfer_by_the_receiver_is_unauthorized() {
    let mut ctx =
        Transfer { from_account: account(1, 60), target_account: account(2, 40), authority: id(2) };
    assert_eq!(transfer(&mut ctx, 60), Err(ErrorCode::Unauthorized));
    assert_eq!(ctx.from_account.balance, 60);
    assert_eq!(ctx.target_account.balance, 40);
}

#[test]
fn transfer_beyond_the_balance_limit_overflows() {
    let mut ctx = Transfer {
        from_account: account(1, 60),
        target_account: account(2, u64::MAX - 9),
        authority: id(1),
    };
    assert_eq!(transfer(&mut ctx, 10), Err(ErrorCode::Overflow));
    assert_eq!(ctx.from_account.balance, 60);
    assert_eq!(ctx.target_account.balance, u64::MAX - 9);
}

#[test]
fn transfer_up_to_the_balance_limit_succeeds() {
    let mut ctx = Transfer {
        from_account: account(1, 60),
        target_account: account(2, u64::MAX - 9),
        authority: id(1),
    };
    assert_eq!(transfer(&mut ctx, 9), Ok(()));
    assert_eq!(ctx.from_account.balance, 51);
    assert_eq!(ctx.target_account.balance, u64::MAX);
}

#[test]
fn records_pass_through_the_four_operations() {
    let a = id(1);
    let stranger = id(9);

    let mut create = Constructor { settings: None, authority: a };
    assert_eq!(new(&mut create), Ok(()));
    let supply = create.settings.unwrap();

    let mut first = InitializeAccount { coin_account: None, authority: a };
    assert_eq!(initialize_account(&mut first), Ok(()));
    let account1 = first.coin_account.unwrap();

    let mut second = InitializeAccount { coin_account: None, authority: id(2) };
    assert_eq!(initialize_account(&mut second), Ok(()));
    let account2 = second.coin_account.unwrap();

    let mut minting = Mint { coin_settings: supply, authority: a, target_account: account1 };
    assert_eq!(mint(&mut minting, 100), Ok(()));
    assert_eq!(minting.coin_settings.total_supply, 100);
    assert_eq!(minting.target_account.balance, 100);

    minting.authority = stranger;
    assert_eq!(mint(&mut minting, 50), Err(ErrorCode::Unauthorized));
    assert_eq!(minting.coin_settings.total_supply, 100);
    assert_eq!(minting.target_account.balance, 100);

    let mut moving = Transfer {
        from_account: minting.target_account,
        target_account: account2,
        authority: a,
    };
    assert_eq!(transfer(&mut moving, 40), Ok(()));
    assert_eq!(moving.from_account.balance, 60);
    assert_eq!(moving.target_account.balance, 40);
    assert_eq!(minting.coin_settings.total_supply, 100);

    assert_eq!(transfer(&mut moving, 1000), Err(ErrorCode::InsufficientBalance));
    assert_eq!(moving.from_account.balance, 60);
    assert_eq!(moving.target_account.balance, 40);
}
