//! The program's instructions. Each loads the accounts it works on, runs its
//! handler on the loaded copies, and writes them back; a refused instruction
//! writes nothing. The calls into the token program that an instruction asks
//! for are returned to the caller, which makes them before the accounts are
//! kept.

use vstd::prelude::*;

use crate::dot::program::{
    can_purchase, init_token_mint_handler, init_users_handler, initialized_manager,
    initialized_user, is_winner, manager_after_purchase, manager_init_handler,
    use_token_mint_handler, user_after_check, user_after_purchase, buy_tickets_handler,
    check_winner_handler, LotteryError, Manager, TokenInstruction, User, WinnerCheck,
    MINT_AMOUNT, PRIZE,
};
use crate::keys::Pubkey;
use crate::seahorse_util::Empty;

verus! {

/// Mints tokens to the recipient's token account; only the manager may. The
/// manager account is left as it was.
pub fn use_token_mint(signer: &Pubkey, manager: &mut Manager) -> (res: Result<
    TokenInstruction,
    LotteryError,
>)
    ensures
        final(manager)@ == old(manager)@,
        signer@ == old(manager)@.manager_add ==> res == Ok::<TokenInstruction, LotteryError>(
            TokenInstruction::MintTo { amount: MINT_AMOUNT },
        ),
        signer@ != old(manager)@.manager_add ==> res == Err::<TokenInstruction, LotteryError>(
            LotteryError::OnlyManager,
        ),
{
    let loaded = Manager::load(manager);
    let res = use_token_mint_handler(signer, &loaded);
    if res.is_ok() {
        Manager::store(loaded, manager);
    }
    res
}

/// Initialises the manager account that `owner` creates, with the bump seed
/// of its address.
pub fn manager_init(
    owner: &Pubkey,
    manager: &mut Manager,
    bump: Option<u8>,
    name: String,
    winner_random_no: u64,
)
    ensures
        final(manager)@ == initialized_manager(
            old(manager)@,
            owner@,
            name@,
            winner_random_no as int,
        ),
{
    let mut created = Empty { account: Manager::load(manager), bump };
    manager_init_handler(owner, name, &mut created, winner_random_no);
    Manager::store(created.account, manager);
}

/// Initialises the user account that `owner` creates, with the bump seed of
/// its address. The manager account is left as it was.
pub fn init_users(
    owner: &Pubkey,
    user: &mut User,
    bump: Option<u8>,
    manager: &mut Manager,
    name: String,
)
    ensures
        final(user)@ == initialized_user(old(user)@, owner@, name@),
        final(manager)@ == old(manager)@,
{
    let mut created = Empty { account: User::load(user), bump };
    let loaded_manager = Manager::load(manager);
    init_users_handler(owner, &mut created, name, &loaded_manager);
    User::store(created.account, user);
    Manager::store(loaded_manager, manager);
}

/// Sells one ticket to the user.
pub fn buy_tickets(user: &mut User, manager: &mut Manager)
    requires
        can_purchase(old(user)@, old(manager)@),
    ensures
        final(user)@ == user_after_purchase(old(user)@, old(manager)@),
        final(manager)@ == manager_after_purchase(old(manager)@, old(user)@.user_add),
{
    let mut loaded_user = User::load(user);
    let mut loaded_manager = Manager::load(manager);
    buy_tickets_handler(&mut loaded_user, &mut loaded_manager);
    User::store(loaded_user, user);
    Manager::store(loaded_manager, manager);
}

/// Creates the token mint; only the manager may. The manager account is left
/// as it was.
pub fn init_token_mint(signer: &Pubkey, manager: &mut Manager) -> (res: Result<(), LotteryError>)
    ensures
        final(manager)@ == old(manager)@,
        signer@ == old(manager)@.manager_add ==> res == Ok::<(), LotteryError>(()),
        signer@ != old(manager)@.manager_add ==> res == Err::<(), LotteryError>(
            LotteryError::OnlyManager,
        ),
{
    let loaded = Manager::load(manager);
    let res = init_token_mint_handler(signer, &loaded);
    if res.is_ok() {
        Manager::store(loaded, manager);
    }
    res
}

/// Checks whether the user holds the winning ticket and pays the winner;
/// only the manager may ask. The manager account is left as it was; a refused
/// check leaves the user as it was too.
pub fn check_winner(signer: &Pubkey, user: &mut User, manager: &mut Manager) -> (res: Result<
    WinnerCheck,
    LotteryError,
>)
    requires
        signer@ == old(manager)@.manager_add && is_winner(old(user)@, old(manager)@)
            ==> old(user).balance + PRIZE <= u64::MAX,
    ensures
        final(manager)@ == old(manager)@,
        signer@ != old(manager)@.manager_add ==> res == Err::<WinnerCheck, LotteryError>(
            LotteryError::ManagerCheckOnly,
        ) && final(user)@ == old(user)@,
        signer@ == old(manager)@.manager_add ==> final(user)@ == user_after_check(
            old(user)@,
            old(manager)@,
        ),
        signer@ == old(manager)@.manager_add && is_winner(old(user)@, old(manager)@) ==> res
            == Ok::<WinnerCheck, LotteryError>(
            WinnerCheck::Won(TokenInstruction::Transfer { amount: PRIZE }),
        ),
        signer@ == old(manager)@.manager_add && !is_winner(old(user)@, old(manager)@) ==> res
            == Ok::<WinnerCheck, LotteryError>(WinnerCheck::NotWon),
{
    let mut loaded_user = User::load(user);
    let loaded_manager = Manager::load(manager);
    let res = check_winner_handler(&mut loaded_user, &loaded_manager, signer);
    if res.is_ok() {
        User::store(loaded_user, user);
        Manager::store(loaded_manager, manager);
    }
    res
}

} // verus!
