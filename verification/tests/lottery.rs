use lottery_program::dot::program::{
    buy_tickets_handler, check_winner_handler, init_token_mint_handler, init_users_handler,
    manager_init_handler, use_token_mint_handler, LoadedManager, LoadedUser, LotteryError,
    Manager, TokenInstruction, User, WinnerCheck, INITIAL_USER_BALANCE, MINT_AMOUNT, PRIZE,
    TICKET_PRICE,
};
use lottery_program::keys::Pubkey;
use lottery_program::lottery_program::{
    buy_tickets, check_winner, init_token_mint, init_users, manager_init, use_token_mint,
};
use lottery_program::seahorse_util::{wrapped_index, Empty};

fn key(b: u8) -> Pubkey {
    Pubkey::new([b; 32])
}

fn fresh_manager() -> Manager {
    Manager {
        name: String::new(),
        manager_add: key(0),
        ticket_price: 0,
        ticket_count: 0,
        winner_no: 0,
        winner_address: key(0),
    }
}

fn fresh_user() -> User {
    User { name: String::new(), user_add: key(0), ticket_count: 0, balance: 0 }
}

#[test]
fn keys_compare_by_every_byte() {
    let a = key(7);
    let mut bytes = [7u8; 32];
    assert!(a.same_as(&Pubkey::new(bytes)));
    bytes[31] = 8;
    assert!(!a.same_as(&Pubkey::new(bytes)));
    bytes[31] = 7;
    bytes[0] = 0;
    assert!(!a.same_as(&Pubkey::new(bytes)));
}

#[test]
fn wrapped_index_keeps_positive_indices() {
    assert_eq!(wrapped_index(10, 3), 3);
    assert_eq!(wrapped_index(2, 5), 5);
}

#[test]
fn wrapped_index_counts_negative_indices_from_the_end() {
    assert_eq!(wrapped_index(10, -1), 9);
    assert_eq!(wrapped_index(10, -10), 0);
}

#[test]
fn wrapped_index_of_zero_is_the_length() {
    assert_eq!(wrapped_index(10, 0), 10);
    assert_eq!(wrapped_index(0, 0), 0);
}

#[test]
fn constants_of_the_lottery() {
    assert_eq!(TICKET_PRICE, 5);
    assert_eq!(INITIAL_USER_BALANCE, 20);
    assert_eq!(MINT_AMOUNT, 10000);
    assert_eq!(PRIZE, 9000);
}

#[test]
fn manager_init_sets_price_count_and_winning_number() {
    let mut manager = fresh_manager();
    manager_init(&key(1), &mut manager, Some(254), String::from("boss"), 3);
    assert_eq!(manager.name, "boss");
    assert!(manager.manager_add.same_as(&key(1)));
    assert_eq!(manager.ticket_price, 5);
    assert_eq!(manager.ticket_count, 0);
    assert_eq!(manager.winner_no, 3);
    assert!(manager.winner_address.same_as(&key(0)));
}

#[test]
fn init_users_gives_the_starting_balance() {
    let mut manager = fresh_manager();
    manager_init(&key(1), &mut manager, None, String::from("boss"), 1);
    let mut user = fresh_user();
    init_users(&key(2), &mut user, Some(255), &mut manager, String::from("alice"));
    assert_eq!(user.name, "alice");
    assert!(user.user_add.same_as(&key(2)));
    assert_eq!(user.balance, 20);
    assert_eq!(user.ticket_count, 0);
    assert_eq!(manager.ticket_count, 0);
    assert_eq!(manager.name, "boss");
}

#[test]
fn readme_walkthrough_winner_gets_the_prize() {
    let manager_key = key(1);
    let user_key = key(2);
    let mut manager = fresh_manager();
    manager_init(&manager_key, &mut manager, None, String::from("manager"), 1);
    assert_eq!(
        use_token_mint(&manager_key, &mut manager),
        Ok(TokenInstruction::MintTo { amount: 10000 })
    );
    assert_eq!(init_token_mint(&manager_key, &mut manager), Ok(()));
    let mut user = fresh_user();
    init_users(&user_key, &mut user, None, &mut manager, String::from("user"));
    buy_tickets(&mut user, &mut manager);
    assert_eq!(user.balance, 15);
    assert_eq!(user.ticket_count, 1);
    assert_eq!(manager.ticket_count, 1);
    assert!(manager.winner_address.same_as(&user_key));
    let outcome = check_winner(&manager_key, &mut user, &mut manager);
    assert_eq!(outcome, Ok(WinnerCheck::Won(TokenInstruction::Transfer { amount: 9000 })));
    assert_eq!(outcome.unwrap().message(), "Congrats you have won the lottery!!");
    assert_eq!(user.balance, 9015);
}

#[test]
fn loser_is_told_to_try_again() {
    let manager_key = key(1);
    let mut manager = fresh_manager();
    manager_init(&manager_key, &mut manager, None, String::from("m"), 2);
    let mut user = fresh_user();
    init_users(&key(2), &mut user, None, &mut manager, String::from("u"));
    buy_tickets(&mut user, &mut manager);
    assert!(manager.winner_address.same_as(&key(0)));
    let outcome = check_winner(&manager_key, &mut user, &mut manager);
    assert_eq!(outcome, Ok(WinnerCheck::NotWon));
    assert_eq!(outcome.unwrap().message(), "Sorry, Try next time.");
    assert_eq!(user.balance, 15);
}

#[test]
fn the_buyer_of_the_winning_number_wins() {
    let mut manager = fresh_manager();
    manager_init(&key(1), &mut manager, None, String::from("m"), 2);
    let mut users = vec![fresh_user(), fresh_user(), fresh_user()];
    for (i, u) in users.iter_mut().enumerate() {
        init_users(&key(10 + i as u8), u, None, &mut manager, String::from("u"));
        buy_tickets(u, &mut manager);
    }
    assert_eq!(manager.ticket_count, 3);
    assert!(manager.winner_address.same_as(&key(11)));
    assert_eq!(check_winner(&key(1), &mut users[0], &mut manager), Ok(WinnerCheck::NotWon));
    assert_eq!(
        check_winner(&key(1), &mut users[1], &mut manager),
        Ok(WinnerCheck::Won(TokenInstruction::Transfer { amount: PRIZE }))
    );
    assert_eq!(users[1].balance, 15 + 9000);
    assert_eq!(users[0].balance, 15);
}

#[test]
fn several_tickets_cost_the_price_each() {
    let mut manager = fresh_manager();
    manager_init(&key(1), &mut manager, None, String::from("m"), 100);
    let mut user = fresh_user();
    init_users(&key(2), &mut user, None, &mut manager, String::from("u"));
    for _ in 0..4 {
        buy_tickets(&mut user, &mut manager);
    }
    assert_eq!(user.ticket_count, 4);
    assert_eq!(user.balance, 0);
    assert_eq!(manager.ticket_count, 4);
}

#[test]
fn only_the_manager_mints_or_checks() {
    let mut manager = fresh_manager();
    manager_init(&key(1), &mut manager, None, String::from("m"), 1);
    let stranger = key(9);
    let minted = use_token_mint(&stranger, &mut manager);
    assert_eq!(minted, Err(LotteryError::OnlyManager));
    assert_eq!(minted.unwrap_err().message(), "Only Manager is authorised to this function");
    assert_eq!(init_token_mint(&stranger, &mut manager), Err(LotteryError::OnlyManager));
    let mut user = fresh_user();
    init_users(&key(2), &mut user, None, &mut manager, String::from("u"));
    buy_tickets(&mut user, &mut manager);
    let checked = check_winner(&stranger, &mut user, &mut manager);
    assert_eq!(checked, Err(LotteryError::ManagerCheckOnly));
    assert_eq!(checked.unwrap_err().message(), "Manager is authorised to it");
    assert_eq!(user.balance, 15);
}

#[test]
fn handlers_on_loaded_accounts() {
    let mut created = Empty {
        account: Manager::load(&fresh_manager()),
        bump: Some(7),
    };
    manager_init_handler(&key(1), String::from("m"), &mut created, 1);
    assert_eq!(created.bump, Some(7));
    let mut manager: LoadedManager = created.account;
    assert_eq!(use_token_mint_handler(&key(1), &manager), Ok(TokenInstruction::MintTo { amount: 10000 }));
    assert_eq!(init_token_mint_handler(&key(3), &manager), Err(LotteryError::OnlyManager));
    let mut new_user = Empty { account: User::load(&fresh_user()), bump: None };
    init_users_handler(&key(2), &mut new_user, String::from("u"), &manager);
    let mut user: LoadedUser = new_user.account;
    assert_eq!(user.balance, 20);
    buy_tickets_handler(&mut user, &mut manager);
    assert_eq!(user.balance, 15);
    assert!(manager.winner_address.same_as(&key(2)));
    assert_eq!(
        check_winner_handler(&mut user, &manager, &key(1)),
        Ok(WinnerCheck::Won(TokenInstruction::Transfer { amount: 9000 }))
    );
    assert_eq!(user.balance, 9015);
}

#[test]
fn store_then_load_gives_back_what_was_stored() {
    let mut account = fresh_user();
    let loaded = LoadedUser { name: String::from("x"), user_add: key(4), ticket_count: 2, balance: 3 };
    User::store(loaded, &mut account);
    let again = User::load(&account);
    assert_eq!(again.name, "x");
    assert!(again.user_add.same_as(&key(4)));
    assert_eq!(again.ticket_count, 2);
    assert_eq!(again.balance, 3);
    let mut m = fresh_manager();
    let lm = LoadedManager {
        name: String::from("y"),
        manager_add: key(5),
        ticket_price: 6,
        ticket_count: 7,
        winner_no: 8,
        winner_address: key(9),
    };
    Manager::store(lm, &mut m);
    let back = Manager::load(&m);
    assert_eq!(back.name, "y");
    assert_eq!((back.ticket_price, back.ticket_count, back.winner_no), (6, 7, 8));
    assert!(back.manager_add.same_as(&key(5)) && back.winner_address.same_as(&key(9)));
}
