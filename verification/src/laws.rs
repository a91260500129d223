//! What holds of the instructions taken together.

use vstd::prelude::*;

use crate::dot::program::{
    can_purchase, initialized_manager, initialized_user, is_winner, manager_after_purchase,
    user_after_check, user_after_purchase, LoadedManager, LoadedUser, Manager, ManagerModel,
    User, UserModel, INITIAL_USER_BALANCE, MINT_AMOUNT, PRIZE, TICKET_PRICE,
};
use crate::seahorse_util::spec_wrapped_index;

verus! {

/// The amounts of the lottery: a ticket costs 5, a user starts with 20, the
/// manager mints 10000 tokens and the winner is paid 9000.
pub proof fn amounts_of_the_lottery()
    ensures
        TICKET_PRICE == 5,
        INITIAL_USER_BALANCE == 20,
        MINT_AMOUNT == 10000,
        PRIZE == 9000,
{
}

/// Initialising a manager makes the signing owner's key itself the manager's
/// address, takes the given name and winning number as they are, sets the
/// price to 5 and the count of tickets sold to 0, and keeps the winner
/// address that the account had.
pub proof fn manager_init_records_owner_and_number(
    before: ManagerModel,
    owner: Seq<u8>,
    name: Seq<char>,
    winner_random_no: int,
)
    ensures
        initialized_manager(before, owner, name, winner_random_no).manager_add == owner,
        initialized_manager(before, owner, name, winner_random_no).name == name,
        initialized_manager(before, owner, name, winner_random_no).winner_no == winner_random_no,
        initialized_manager(before, owner, name, winner_random_no).ticket_price == 5,
        initialized_manager(before, owner, name, winner_random_no).ticket_count == 0,
        initialized_manager(before, owner, name, winner_random_no).winner_address
            == before.winner_address,
{
}

/// Initialising a user makes the signing owner's key itself the user's
/// address, takes the given name, sets the balance to 20 and keeps the
/// ticket count that the account had.
pub proof fn user_init_records_owner(before: UserModel, owner: Seq<u8>, name: Seq<char>)
    ensures
        initialized_user(before, owner, name).user_add == owner,
        initialized_user(before, owner, name).name == name,
        initialized_user(before, owner, name).balance == 20,
        initialized_user(before, owner, name).ticket_count == before.ticket_count,
{
}

/// A purchase can go through exactly when the buyer's balance covers the
/// price and neither ticket count is at the largest `u64`.
pub proof fn purchase_possible_exactly_when_affordable(user: UserModel, manager: ManagerModel)
    ensures
        can_purchase(user, manager) <==> (user.balance >= manager.ticket_price
            && user.ticket_count < 0xffff_ffff_ffff_ffff && manager.ticket_count
            < 0xffff_ffff_ffff_ffff),
{
}

/// One purchase takes the price from the buyer's balance and gives it one
/// more ticket, keeping its name and address; the manager counts one more
/// ticket, keeps its name, owner, price and winning number, and records the
/// buyer as winner exactly when the new count is the winning number.
pub proof fn one_purchase(user: UserModel, manager: ManagerModel)
    ensures
        user_after_purchase(user, manager).balance == user.balance - manager.ticket_price,
        user_after_purchase(user, manager).ticket_count == user.ticket_count + 1,
        user_after_purchase(user, manager).name == user.name,
        user_after_purchase(user, manager).user_add == user.user_add,
        manager_after_purchase(manager, user.user_add).ticket_count == manager.ticket_count + 1,
        manager_after_purchase(manager, user.user_add).name == manager.name,
        manager_after_purchase(manager, user.user_add).manager_add == manager.manager_add,
        manager_after_purchase(manager, user.user_add).ticket_price == manager.ticket_price,
        manager_after_purchase(manager, user.user_add).winner_no == manager.winner_no,
        manager.ticket_count + 1 == manager.winner_no ==> manager_after_purchase(
            manager,
            user.user_add,
        ).winner_address == user.user_add,
        manager.ticket_count + 1 != manager.winner_no ==> manager_after_purchase(
            manager,
            user.user_add,
        ).winner_address == manager.winner_address,
{
}

/// A user holds the winning ticket exactly when its address is the
/// manager's winner address, byte for byte.
pub proof fn winner_is_the_recorded_address(user: UserModel, manager: ManagerModel)
    ensures
        is_winner(user, manager) <==> user.user_add == manager.winner_address,
{
}

/// The check pays 9000 to a user whose address is the winner address,
/// however many tickets it holds, and leaves any other user's balance as it
/// was; name, address and tickets are kept either way.
pub proof fn check_pays_exactly_the_winner(user: UserModel, manager: ManagerModel)
    ensures
        user.user_add == manager.winner_address ==> user_after_check(user, manager).balance
            == user.balance + 9000,
        user.user_add != manager.winner_address ==> user_after_check(user, manager).balance
            == user.balance,
        user_after_check(user, manager).ticket_count == user.ticket_count,
        user_after_check(user, manager).name == user.name,
        user_after_check(user, manager).user_add == user.user_add,
{
}

/// Buying the ticket whose number is the winning number and then being
/// checked pays the buyer: it is the winner, and its balance ends at what it
/// had less the price plus 9000.
pub proof fn buyer_of_winning_ticket_is_paid(user: UserModel, manager: ManagerModel)
    requires
        manager.ticket_count + 1 == manager.winner_no,
    ensures
        is_winner(
            user_after_purchase(user, manager),
            manager_after_purchase(manager, user.user_add),
        ),
        user_after_check(
            user_after_purchase(user, manager),
            manager_after_purchase(manager, user.user_add),
        ).balance == user.balance - manager.ticket_price + 9000,
{
}

/// A positive index is its own position; zero or a negative index counts
/// back from the length.
pub proof fn wrapped_index_positions(len: int, index: int)
    ensures
        index > 0 ==> spec_wrapped_index(len, index) == index,
        index <= 0 ==> spec_wrapped_index(len, index) == len + index,
        spec_wrapped_index(len, 0) == len,
{
}

/// The manager after it sold one ticket to each of `buyers`, in order.
pub open spec fn manager_after_purchases(manager: ManagerModel, buyers: Seq<Seq<u8>>) -> ManagerModel
    decreases buyers.len(),
{
    if buyers.len() == 0 {
        manager
    } else {
        manager_after_purchase(manager_after_purchases(manager, buyers.drop_last()), buyers.last())
    }
}

/// Whether the winning number falls among the tickets that `count` more
/// sales of `manager` hand out.
pub open spec fn winning_ticket_sold(manager: ManagerModel, count: int) -> bool {
    manager.ticket_count < manager.winner_no <= manager.ticket_count + count
}

/// The winner is the buyer of the ticket whose number is the winning number.
/// After a run of sales the manager has sold one ticket per sale; its name,
/// owner, price and winning number are those it had; if the winning ticket
/// was among the tickets sold, the winner is its buyer, and otherwise the
/// winner is the one it had before.
pub proof fn winner_is_buyer_of_winning_ticket(manager: ManagerModel, buyers: Seq<Seq<u8>>)
    ensures
        manager_after_purchases(manager, buyers).ticket_count == manager.ticket_count + buyers.len(),
        manager_after_purchases(manager, buyers).name == manager.name,
        manager_after_purchases(manager, buyers).manager_add == manager.manager_add,
        manager_after_purchases(manager, buyers).ticket_price == manager.ticket_price,
        manager_after_purchases(manager, buyers).winner_no == manager.winner_no,
        winning_ticket_sold(manager, buyers.len() as int) ==> manager_after_purchases(
            manager,
            buyers,
        ).winner_address == buyers[manager.winner_no - manager.ticket_count - 1],
        !winning_ticket_sold(manager, buyers.len() as int) ==> manager_after_purchases(
            manager,
            buyers,
        ).winner_address == manager.winner_address,
    decreases buyers.len(),
{
    if buyers.len() > 0 {
        let earlier = buyers.drop_last();
        winner_is_buyer_of_winning_ticket(manager, earlier);
        if winning_ticket_sold(manager, earlier.len() as int) {
            assert(earlier[manager.winner_no - manager.ticket_count - 1]
                == buyers[manager.winner_no - manager.ticket_count - 1]);
        }
    }
}

/// A purchase keeps a user's balance plus what its tickets cost at the
/// manager's price: the price leaves the balance as the ticket comes in.
pub proof fn purchase_keeps_balance_and_ticket_value(user: UserModel, manager: ManagerModel)
    ensures
        user_after_purchase(user, manager).balance + manager.ticket_price * user_after_purchase(
            user,
            manager,
        ).ticket_count == user.balance + manager.ticket_price * user.ticket_count,
        manager_after_purchase(manager, user.user_add).ticket_price == manager.ticket_price,
{
    assert(manager.ticket_price * (user.ticket_count + 1) == manager.ticket_price * user.ticket_count
        + manager.ticket_price) by (nonlinear_arith);
}

/// The user after it bought `count` tickets from `manager`, one after the
/// other.
pub open spec fn user_after_purchases(user: UserModel, manager: ManagerModel, count: nat) -> UserModel
    decreases count,
{
    if count == 0 {
        user
    } else {
        user_after_purchase(user_after_purchases(user, manager, (count - 1) as nat), manager)
    }
}

/// Each ticket costs the manager's price: after `count` purchases the user
/// holds `count` more tickets and `count` times the price less balance, and
/// keeps its name and address.
pub proof fn tickets_cost_the_price_each(user: UserModel, manager: ManagerModel, count: nat)
    ensures
        user_after_purchases(user, manager, count).ticket_count == user.ticket_count + count,
        user_after_purchases(user, manager, count).balance == user.balance - count
            * manager.ticket_price,
        user_after_purchases(user, manager, count).name == user.name,
        user_after_purchases(user, manager, count).user_add == user.user_add,
    decreases count,
{
    if count > 0 {
        tickets_cost_the_price_each(user, manager, (count - 1) as nat);
        assert((count - 1) * manager.ticket_price + manager.ticket_price == count
            * manager.ticket_price) by (nonlinear_arith);
    }
}

/// The winner is paid ninety percent of the tokens that are minted; the rest
/// stays with the manager.
pub proof fn prize_is_ninety_percent_of_minted()
    ensures
        PRIZE * 10 == MINT_AMOUNT * 9,
        MINT_AMOUNT - PRIZE == MINT_AMOUNT / 10,
{
}

/// Storing a loaded user and loading the account again gives back what was
/// stored; loading a user and storing it again leaves the account as it was.
pub proof fn user_load_store_round_trip(
    account: User,
    loaded: LoadedUser,
    stored: User,
    reloaded: LoadedUser,
)
    requires
        loaded@ == account@,
        stored@ == loaded@,
        reloaded@ == stored@,
    ensures
        stored@ == account@,
        reloaded@ == loaded@,
{
}

/// Storing a loaded manager and loading the account again gives back what
/// was stored; loading a manager and storing it again leaves the account as
/// it was.
pub proof fn manager_load_store_round_trip(
    account: Manager,
    loaded: LoadedManager,
    stored: Manager,
    reloaded: LoadedManager,
)
    requires
        loaded@ == account@,
        stored@ == loaded@,
        reloaded@ == stored@,
    ensures
        stored@ == account@,
        reloaded@ == loaded@,
{
}

} // verus!
