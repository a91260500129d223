//! The user and manager accounts, their loaded copies, and the handler of
//! each instruction.

use vstd::prelude::*;

use crate::keys::Pubkey;
use crate::seahorse_util::Empty;

verus! {

/// What a manager pays for one ticket, set when the manager is initialised.
pub const TICKET_PRICE: u64 = 5;

/// The balance a user starts with.
pub const INITIAL_USER_BALANCE: u64 = 20;

/// How many tokens the manager mints to its token account.
pub const MINT_AMOUNT: u64 = 10000;

/// What the winner is paid, in tokens and in balance.
pub const PRIZE: u64 = 9000;

/// A user account: the name and address of a ticket buyer, how many tickets
/// it holds, and its balance.
#[derive(Debug)]
pub struct User {
    pub name: String,
    pub user_add: Pubkey,
    pub ticket_count: u64,
    pub balance: u64,
}

/// The fields of a user account as mathematical values.
pub ghost struct UserModel {
    pub name: Seq<char>,
    pub user_add: Seq<u8>,
    pub ticket_count: int,
    pub balance: int,
}

impl View for User {
    type V = UserModel;

    open spec fn view(&self) -> UserModel {
        UserModel {
            name: self.name@,
            user_add: self.user_add@,
            ticket_count: self.ticket_count as int,
            balance: self.balance as int,
        }
    }
}

/// A user account loaded for the length of one instruction: the handlers
/// change this copy, and the instruction writes it back at its end.
#[derive(Clone, Debug)]
pub struct LoadedUser {
    pub name: String,
    pub user_add: Pubkey,
    pub ticket_count: u64,
    pub balance: u64,
}

impl View for LoadedUser {
    type V = UserModel;

    open spec fn view(&self) -> UserModel {
        UserModel {
            name: self.name@,
            user_add: self.user_add@,
            ticket_count: self.ticket_count as int,
            balance: self.balance as int,
        }
    }
}

/// The manager account: who runs the lottery, the ticket price, how many
/// tickets were sold, the number of the winning ticket and who bought it.
#[derive(Debug)]
pub struct Manager {
    pub name: String,
    pub manager_add: Pubkey,
    pub ticket_price: u64,
    pub ticket_count: u64,
    pub winner_no: u64,
    pub winner_address: Pubkey,
}

/// The fields of a manager account as mathematical values.
pub ghost struct ManagerModel {
    pub name: Seq<char>,
    pub manager_add: Seq<u8>,
    pub ticket_price: int,
    pub ticket_count: int,
    pub winner_no: int,
    pub winner_address: Seq<u8>,
}

impl View for Manager {
    type V = ManagerModel;

    open spec fn view(&self) -> ManagerModel {
        ManagerModel {
            name: self.name@,
            manager_add: self.manager_add@,
            ticket_price: self.ticket_price as int,
            ticket_count: self.ticket_count as int,
            winner_no: self.winner_no as int,
            winner_address: self.winner_address@,
        }
    }
}

/// A manager account loaded for the length of one instruction.
#[derive(Clone, Debug)]
pub struct LoadedManager {
    pub name: String,
    pub manager_add: Pubkey,
    pub ticket_price: u64,
    pub ticket_count: u64,
    pub winner_no: u64,
    pub winner_address: Pubkey,
}

impl View for LoadedManager {
    type V = ManagerModel;

    open spec fn view(&self) -> ManagerModel {
        ManagerModel {
            name: self.name@,
            manager_add: self.manager_add@,
            ticket_price: self.ticket_price as int,
            ticket_count: self.ticket_count as int,
            winner_no: self.winner_no as int,
            winner_address: self.winner_address@,
        }
    }
}

impl User {
    /// Copies the fields of an account into a loaded user.
    pub fn load(account: &User) -> (loaded: LoadedUser)
        ensures
            loaded@ == account@,
    {
        LoadedUser {
            name: account.name.clone(),
            user_add: account.user_add,
            ticket_count: account.ticket_count,
            balance: account.balance,
        }
    }

    /// Writes every field of a loaded user back into the account.
    pub fn store(loaded: LoadedUser, account: &mut User)
        ensures
            final(account)@ == loaded@,
    {
        account.name = loaded.name;
        account.user_add = loaded.user_add;
        account.ticket_count = loaded.ticket_count;
        account.balance = loaded.balance;
    }
}

impl Manager {
    /// Copies the fields of an account into a loaded manager.
    pub fn load(account: &Manager) -> (loaded: LoadedManager)
        ensures
            loaded@ == account@,
    {
        LoadedManager {
            name: account.name.clone(),
            manager_add: account.manager_add,
            ticket_price: account.ticket_price,
            ticket_count: account.ticket_count,
            winner_no: account.winner_no,
            winner_address: account.winner_address,
        }
    }

    /// Writes every field of a loaded manager back into the account.
    pub fn store(loaded: LoadedManager, account: &mut Manager)
        ensures
            final(account)@ == loaded@,
    {
        account.name = loaded.name;
        account.manager_add = loaded.manager_add;
        account.ticket_price = loaded.ticket_price;
        account.ticket_count = loaded.ticket_count;
        account.winner_no = loaded.winner_no;
        account.winner_address = loaded.winner_address;
    }
}


/// Why an instruction refused to run.
#[derive(Debug, PartialEq, Eq, Structural, Clone, Copy)]
pub enum LotteryError {
    /// Minting, or creating the mint, was asked for by someone other than
    /// the manager.
    OnlyManager,
    /// The winner check was asked for by someone other than the manager.
    ManagerCheckOnly,
}

impl LotteryError {
    /// The text that the program fails with.
    pub fn message(&self) -> (text: &'static str)
        ensures
            text@ == (match self {
                LotteryError::OnlyManager => "Only Manager is authorised to this function"@,
                LotteryError::ManagerCheckOnly => "Manager is authorised to it"@,
            }),
    {
        match self {
            LotteryError::OnlyManager => "Only Manager is authorised to this function",
            LotteryError::ManagerCheckOnly => "Manager is authorised to it",
        }
    }
}

/// A call into the token program that an instruction asks for.
#[derive(Debug, PartialEq, Eq, Structural, Clone, Copy)]
pub enum TokenInstruction {
    /// Mint `amount` new tokens of the mint into the recipient's account,
    /// signed by the manager.
    MintTo { amount: u64 },
    /// Move `amount` tokens from the manager's token account to the user's,
    /// signed by the manager.
    Transfer { amount: u64 },
}

/// What the winner check found.
#[derive(Debug, PartialEq, Eq, Structural, Clone, Copy)]
pub enum WinnerCheck {
    /// The user holds the winning ticket; the prize is paid with this
    /// transfer.
    Won(TokenInstruction),
    /// The user does not hold the winning ticket.
    NotWon,
}

impl WinnerCheck {
    /// The message the program logs for this outcome.
    pub fn message(&self) -> (text: &'static str)
        ensures
            text@ == (match self {
                WinnerCheck::Won(_) => "Congrats you have won the lottery!!"@,
                WinnerCheck::NotWon => "Sorry, Try next time."@,
            }),
    {
        match self {
            WinnerCheck::Won(_) => "Congrats you have won the lottery!!",
            WinnerCheck::NotWon => "Sorry, Try next time.",
        }
    }
}

/// The manager after its initialisation by `owner`.
pub open spec fn initialized_manager(
    before: ManagerModel,
    owner: Seq<u8>,
    name: Seq<char>,
    winner_random_no: int,
) -> ManagerModel {
    ManagerModel {
        name: name,
        manager_add: owner,
        ticket_price: TICKET_PRICE as int,
        ticket_count: 0,
        winner_no: winner_random_no,
        winner_address: before.winner_address,
    }
}

/// The user after its initialisation by `owner`; its ticket count is kept.
pub open spec fn initialized_user(before: UserModel, owner: Seq<u8>, name: Seq<char>) -> UserModel {
    UserModel {
        name: name,
        user_add: owner,
        ticket_count: before.ticket_count,
        balance: INITIAL_USER_BALANCE as int,
    }
}

/// The buyer after it bought one ticket at the manager's price.
pub open spec fn user_after_purchase(user: UserModel, manager: ManagerModel) -> UserModel {
    UserModel {
        name: user.name,
        user_add: user.user_add,
        ticket_count: user.ticket_count + 1,
        balance: user.balance - manager.ticket_price,
    }
}

/// The manager after it sold one ticket to `buyer`: the ticket whose number
/// is the winning number makes its buyer the winner.
pub open spec fn manager_after_purchase(manager: ManagerModel, buyer: Seq<u8>) -> ManagerModel {
    ManagerModel {
        name: manager.name,
        manager_add: manager.manager_add,
        ticket_price: manager.ticket_price,
        ticket_count: manager.ticket_count + 1,
        winner_no: manager.winner_no,
        winner_address: if manager.ticket_count + 1 == manager.winner_no {
            buyer
        } else {
            manager.winner_address
        },
    }
}

/// Whether a purchase can go through: the buyer can pay the price and
/// neither ticket count is at its largest value.
pub open spec fn can_purchase(user: UserModel, manager: ManagerModel) -> bool {
    &&& user.balance >= manager.ticket_price
    &&& user.ticket_count < u64::MAX
    &&& manager.ticket_count < u64::MAX
}

/// Whether `user` holds the winning ticket of `manager`.
pub open spec fn is_winner(user: UserModel, manager: ManagerModel) -> bool {
    user.user_add == manager.winner_address
}

/// The user after the winner check: the winner is credited the prize.
pub open spec fn user_after_check(user: UserModel, manager: ManagerModel) -> UserModel {
    UserModel {
        name: user.name,
        user_add: user.user_add,
        ticket_count: user.ticket_count,
        balance: if is_winner(user, manager) {
            user.balance + PRIZE
        } else {
            user.balance
        },
    }
}

/// Asks the token program to mint tokens to the recipient; only the manager
/// may.
pub fn use_token_mint_handler(signer: &Pubkey, manager: &LoadedManager) -> (res: Result<
    TokenInstruction,
    LotteryError,
>)
    ensures
        signer@ == manager@.manager_add ==> res == Ok::<TokenInstruction, LotteryError>(
            TokenInstruction::MintTo { amount: MINT_AMOUNT },
        ),
        signer@ != manager@.manager_add ==> res == Err::<TokenInstruction, LotteryError>(
            LotteryError::OnlyManager,
        ),
{
    if !signer.same_as(&manager.manager_add) {
        return Err(LotteryError::OnlyManager);
    }
    Ok(TokenInstruction::MintTo { amount: MINT_AMOUNT })
}

/// Sets up the manager account created for `owner`: its name, its owner,
/// the ticket price, no tickets sold yet, and the winning number.
pub fn manager_init_handler(
    owner: &Pubkey,
    name: String,
    manager: &mut Empty<LoadedManager>,
    winner_random_no: u64,
)
    ensures
        final(manager).account@ == initialized_manager(
            old(manager).account@,
            owner@,
            name@,
            winner_random_no as int,
        ),
        final(manager).bump == old(manager).bump,
{
    manager.account.manager_add = *owner;
    manager.account.name = name;
    manager.account.ticket_price = TICKET_PRICE;
    manager.account.ticket_count = 0;
    manager.account.winner_no = winner_random_no;
}

/// Sets up the user account created for `owner`: its name, its owner and
/// the starting balance. The manager is not changed.
pub fn init_users_handler(
    owner: &Pubkey,
    user: &mut Empty<LoadedUser>,
    name: String,
    manager: &LoadedManager,
)
    ensures
        final(user).account@ == initialized_user(old(user).account@, owner@, name@),
        final(user).bump == old(user).bump,
{
    user.account.name = name;
    user.account.user_add = *owner;
    user.account.balance = INITIAL_USER_BALANCE;
}

/// Sells one ticket to the user: the price leaves its balance, both ticket
/// counts grow by one, and the buyer of the winning number becomes the
/// winner.
pub fn buy_tickets_handler(user: &mut LoadedUser, manager: &mut LoadedManager)
    requires
        can_purchase(old(user)@, old(manager)@),
    ensures
        final(user)@ == user_after_purchase(old(user)@, old(manager)@),
        final(manager)@ == manager_after_purchase(old(manager)@, old(user)@.user_add),
{
    user.balance = user.balance - manager.ticket_price;
    user.ticket_count = user.ticket_count + 1;
    manager.ticket_count = manager.ticket_count + 1;
    if manager.ticket_count == manager.winner_no {
        manager.winner_address = user.user_add;
    }
}

/// Allows the creation of the token mint; only the manager may.
pub fn init_token_mint_handler(signer: &Pubkey, manager: &LoadedManager) -> (res: Result<
    (),
    LotteryError,
>)
    ensures
        signer@ == manager@.manager_add ==> res == Ok::<(), LotteryError>(()),
        signer@ != manager@.manager_add ==> res == Err::<(), LotteryError>(
            LotteryError::OnlyManager,
        ),
{
    if !signer.same_as(&manager.manager_add) {
        return Err(LotteryError::OnlyManager);
    }
    Ok(())
}

/// Checks whether the user holds the winning ticket; only the manager may
/// ask. The winner is paid the prize: its balance grows by the prize, and the
/// prize in tokens is moved to it from the manager's token account.
pub fn check_winner_handler(user: &mut LoadedUser, manager: &LoadedManager, signer: &Pubkey) -> (res:
    Result<WinnerCheck, LotteryError>)
    requires
        signer@ == manager@.manager_add && is_winner(old(user)@, manager@)
            ==> old(user).balance + PRIZE <= u64::MAX,
    ensures
        signer@ != manager@.manager_add ==> res == Err::<WinnerCheck, LotteryError>(
            LotteryError::ManagerCheckOnly,
        ) && final(user)@ == old(user)@,
        signer@ == manager@.manager_add ==> final(user)@ == user_after_check(old(user)@, manager@),
        signer@ == manager@.manager_add && is_winner(old(user)@, manager@) ==> res == Ok::<
            WinnerCheck,
            LotteryError,
        >(WinnerCheck::Won(TokenInstruction::Transfer { amount: PRIZE })),
        signer@ == manager@.manager_add && !is_winner(old(user)@, manager@) ==> res == Ok::<
            WinnerCheck,
            LotteryError,
        >(WinnerCheck::NotWon),
{
    if !signer.same_as(&manager.manager_add) {
        return Err(LotteryError::ManagerCheckOnly);
    }
    if user.user_add.same_as(&manager.winner_address) {
        user.balance = user.balance + PRIZE;
        Ok(WinnerCheck::Won(TokenInstruction::Transfer { amount: PRIZE }))
    } else {
        Ok(WinnerCheck::NotWon)
    }
}

} // verus!
