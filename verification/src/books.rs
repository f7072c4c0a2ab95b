//! The books as a whole: the protocol record, every fund and every position,
//! and what holds of them together however the operations are interleaved.
//!
//! The books balance when the protocol counts what its funds count, and each
//! fund counts the stakes and the number of the active positions bound to it.
//! Freshly set-up books balance, and every operation keeps them balanced,
//! with one exception: a stake on a position that is already active replaces
//! that position without taking its old stake off the totals.

use vstd::prelude::*;
use anchor_lang::prelude::Pubkey;
use crate::admin::{initial_protocol, new_fund};
use crate::reward::yield_due;
use crate::staking::{
    claim_refusal, fund_after_stake, fund_after_unstake, position_after_claim,
    position_after_stake, position_after_unstake, protocol_after_stake, protocol_after_unstake,
    stake_in_range, stake_refusal, unstake_in_range, unstake_refusal,
};
use crate::state::{Fund, Protocol, User};

verus! {

/// Everything the protocol keeps: its own record, the funds and the
/// positions, each fund and each position at a place of its own.
pub struct Books {
    pub protocol: Protocol,
    pub funds: Seq<Fund>,
    pub users: Seq<User>,
}

/// The sum of `amounts`.
pub open spec fn total(amounts: Seq<nat>) -> nat
    decreases amounts.len(),
{
    if amounts.len() == 0 {
        0
    } else {
        total(amounts.drop_last()) + amounts.last()
    }
}

/// What `user` has at stake in the fund `fund_id`: the stake of an active
/// position bound to it, nothing otherwise.
pub open spec fn stake_in(user: User, fund_id: u64) -> nat {
    if user.is_active && user.fund_id == fund_id {
        user.current_stake as nat
    } else {
        0
    }
}

/// 1 if `user` holds an active position in the fund `fund_id`, else 0.
pub open spec fn seat_in(user: User, fund_id: u64) -> nat {
    if user.is_active && user.fund_id == fund_id {
        1
    } else {
        0
    }
}

/// The sum of the stakes of the active positions bound to the fund `fund_id`.
pub open spec fn staked_in(users: Seq<User>, fund_id: u64) -> nat {
    total(Seq::new(users.len(), |k: int| stake_in(users[k], fund_id)))
}

/// The number of active positions bound to the fund `fund_id`.
pub open spec fn members_of(users: Seq<User>, fund_id: u64) -> nat {
    total(Seq::new(users.len(), |k: int| seat_in(users[k], fund_id)))
}

/// The sum of what the funds count as staked.
pub open spec fn staked_in_funds(funds: Seq<Fund>) -> nat {
    total(Seq::new(funds.len(), |i: int| funds[i].total_staked as nat))
}

/// Some fund has the id `fund_id`.
pub open spec fn has_fund(funds: Seq<Fund>, fund_id: u64) -> bool {
    exists|i: int| 0 <= i < funds.len() && #[trigger] funds[i].id == fund_id
}

/// `fund` is active, within its capacity, and counts the stakes and the
/// number of the active positions bound to it.
pub open spec fn fund_balanced(fund: Fund, users: Seq<User>) -> bool {
    &&& fund.is_active
    &&& fund.within_capacity()
    &&& fund.total_staked == staked_in(users, fund.id)
    &&& fund.current_users == members_of(users, fund.id)
}

impl Books {
    /// The books balance: the protocol counts what its funds count, every
    /// fund is balanced, no two funds share an id, and every active position
    /// is bound to a fund that exists.
    pub open spec fn balanced(self) -> bool {
        &&& self.protocol.total_staked == staked_in_funds(self.funds)
        &&& forall|i: int| 0 <= i < self.funds.len() ==> fund_balanced(#[trigger] self.funds[i], self.users)
        &&& forall|i: int, j: int|
            0 <= i < j < self.funds.len() ==> (#[trigger] self.funds[i]).id != (#[trigger] self.funds[j]).id
        &&& forall|k: int|
            0 <= k < self.users.len() && (#[trigger] self.users[k]).is_active ==> has_fund(
                self.funds,
                self.users[k].fund_id,
            )
    }
}

/// Replacing one amount changes the sum by the difference.
pub proof fn total_after_update(amounts: Seq<nat>, k: int, amount: nat)
    requires
        0 <= k < amounts.len(),
    ensures
        total(amounts.update(k, amount)) + amounts[k] == total(amounts) + amount,
    decreases amounts.len(),
{
    let updated = amounts.update(k, amount);
    if k == amounts.len() - 1 {
        assert(updated.drop_last() =~= amounts.drop_last());
    } else {
        assert(updated.drop_last() =~= amounts.drop_last().update(k, amount));
        total_after_update(amounts.drop_last(), k, amount);
    }
}

/// One more amount adds to the sum.
pub proof fn total_after_push(amounts: Seq<nat>, amount: nat)
    ensures
        total(amounts.push(amount)) == total(amounts) + amount,
{
    assert(amounts.push(amount).drop_last() =~= amounts);
}

/// A sum of zeros is zero.
pub proof fn total_of_zeros(amounts: Seq<nat>)
    requires
        forall|k: int| 0 <= k < amounts.len() ==> amounts[k] == 0,
    ensures
        total(amounts) == 0,
    decreases amounts.len(),
{
    if amounts.len() > 0 {
        total_of_zeros(amounts.drop_last());
    }
}

/// Replacing the position at place `k` changes what is staked in a fund, and
/// how many it counts, by the difference between the two positions.
pub proof fn users_after_change(users: Seq<User>, k: int, user: User, fund_id: u64)
    requires
        0 <= k < users.len(),
    ensures
        staked_in(users.update(k, user), fund_id) + stake_in(users[k], fund_id) == staked_in(
            users,
            fund_id,
        ) + stake_in(user, fund_id),
        members_of(users.update(k, user), fund_id) + seat_in(users[k], fund_id) == members_of(
            users,
            fund_id,
        ) + seat_in(user, fund_id),
{
    let changed = users.update(k, user);
    let stakes = Seq::new(users.len(), |j: int| stake_in(users[j], fund_id));
    let stakes_changed = Seq::new(changed.len(), |j: int| stake_in(changed[j], fund_id));
    assert(stakes_changed =~= stakes.update(k, stake_in(user, fund_id)));
    total_after_update(stakes, k, stake_in(user, fund_id));
    let seats = Seq::new(users.len(), |j: int| seat_in(users[j], fund_id));
    let seats_changed = Seq::new(changed.len(), |j: int| seat_in(changed[j], fund_id));
    assert(seats_changed =~= seats.update(k, seat_in(user, fund_id)));
    total_after_update(seats, k, seat_in(user, fund_id));
}

/// One more position adds what it has at stake in a fund, and its seat, to
/// what the fund should count.
pub proof fn users_after_push(users: Seq<User>, user: User, fund_id: u64)
    ensures
        staked_in(users.push(user), fund_id) == staked_in(users, fund_id) + stake_in(user, fund_id),
        members_of(users.push(user), fund_id) == members_of(users, fund_id) + seat_in(user, fund_id),
{
    let more = users.push(user);
    let stakes = Seq::new(users.len(), |j: int| stake_in(users[j], fund_id));
    let stakes_more = Seq::new(more.len(), |j: int| stake_in(more[j], fund_id));
    assert(stakes_more =~= stakes.push(stake_in(user, fund_id)));
    total_after_push(stakes, stake_in(user, fund_id));
    let seats = Seq::new(users.len(), |j: int| seat_in(users[j], fund_id));
    let seats_more = Seq::new(more.len(), |j: int| seat_in(more[j], fund_id));
    assert(seats_more =~= seats.push(seat_in(user, fund_id)));
    total_after_push(seats, seat_in(user, fund_id));
}

/// Nothing is staked in a fund that no active position is bound to, and it
/// has no members.
pub proof fn unbound_fund_is_empty(users: Seq<User>, fund_id: u64)
    requires
        forall|k: int| 0 <= k < users.len() && (#[trigger] users[k]).is_active ==> users[k].fund_id != fund_id,
    ensures
        staked_in(users, fund_id) == 0,
        members_of(users, fund_id) == 0,
{
    total_of_zeros(Seq::new(users.len(), |j: int| stake_in(users[j], fund_id)));
    total_of_zeros(Seq::new(users.len(), |j: int| seat_in(users[j], fund_id)));
}

/// Replacing the fund at place `i` changes what the funds count together by
/// the difference between the two funds.
pub proof fn funds_after_change(funds: Seq<Fund>, i: int, fund: Fund)
    requires
        0 <= i < funds.len(),
    ensures
        staked_in_funds(funds.update(i, fund)) + funds[i].total_staked == staked_in_funds(funds)
            + fund.total_staked,
{
    let changed = funds.update(i, fund);
    let totals = Seq::new(funds.len(), |j: int| funds[j].total_staked as nat);
    let totals_changed = Seq::new(changed.len(), |j: int| changed[j].total_staked as nat);
    assert(totals_changed =~= totals.update(i, fund.total_staked as nat));
    total_after_update(totals, i, fund.total_staked as nat);
}

/// A fund that keeps its id can be replaced without any id going missing.
pub proof fn ids_after_change(funds: Seq<Fund>, i: int, fund: Fund, fund_id: u64)
    requires
        0 <= i < funds.len(),
        fund.id == funds[i].id,
        has_fund(funds, fund_id),
    ensures
        has_fund(funds.update(i, fund), fund_id),
{
    let at = choose|j: int| 0 <= j < funds.len() && #[trigger] funds[j].id == fund_id;
    assert(funds.update(i, fund)[at].id == fund_id);
}

/// No fund counts more than all funds together, and no position holds more
/// in a fund, or more seats, than all positions together.
pub proof fn part_within_whole(funds: Seq<Fund>, users: Seq<User>, i: int, k: int)
    requires
        0 <= i < funds.len(),
        0 <= k < users.len(),
    ensures
        funds[i].total_staked <= staked_in_funds(funds),
        stake_in(users[k], funds[i].id) <= staked_in(users, funds[i].id),
        seat_in(users[k], funds[i].id) <= members_of(users, funds[i].id),
{
    funds_after_change(funds, i, Fund { total_staked: 0, ..funds[i] });
    users_after_change(users, k, User { is_active: false, ..users[k] }, funds[i].id);
}

/// The books of a protocol that has just been set up balance.
pub proof fn initial_books_are_balanced(authority: Pubkey, jupiter_vault: Pubkey, bump: u8)
    ensures
        (Books {
            protocol: initial_protocol(authority, jupiter_vault, bump),
            funds: Seq::empty(),
            users: Seq::empty(),
        }).balanced(),
{
}

/// A new fund under an id that no fund has yet keeps the books balanced.
pub proof fn create_fund_keeps_books_balanced(
    books: Books,
    fund_id: u64,
    max_users: u32,
    tier1_apy: u16,
    tier2_apy: u16,
    tier3_apy: u16,
    now: i64,
)
    requires
        books.balanced(),
        !has_fund(books.funds, fund_id),
    ensures
        (Books {
            funds: books.funds.push(
                new_fund(fund_id, max_users, tier1_apy, tier2_apy, tier3_apy, now),
            ),
            ..books
        }).balanced(),
{
    let fund = new_fund(fund_id, max_users, tier1_apy, tier2_apy, tier3_apy, now);
    let funds = books.funds.push(fund);
    let totals = Seq::new(books.funds.len(), |j: int| books.funds[j].total_staked as nat);
    assert(Seq::new(funds.len(), |j: int| funds[j].total_staked as nat) =~= totals.push(0));
    total_after_push(totals, 0);
    unbound_fund_is_empty(books.users, fund_id);
    assert forall|k: int| 0 <= k < books.users.len() && (#[trigger] books.users[k]).is_active implies has_fund(
        funds,
        books.users[k].fund_id,
    ) by {
        let id = books.users[k].fund_id;
        let at = choose|j: int| 0 <= j < books.funds.len() && #[trigger] books.funds[j].id == id;
        assert(funds[at].id == id);
    }
}

/// A vacant position for a new participant keeps the books balanced.
pub proof fn open_position_keeps_books_balanced(books: Books, wallet: Pubkey)
    requires
        books.balanced(),
    ensures
        (Books { users: books.users.push(User::vacant_for(wallet)), ..books }).balanced(),
{
    let users = books.users.push(User::vacant_for(wallet));
    assert forall|i: int| 0 <= i < books.funds.len() implies fund_balanced(
        #[trigger] books.funds[i],
        users,
    ) by {
        users_after_push(books.users, User::vacant_for(wallet), books.funds[i].id);
    }
}

/// A stake that is not refused, on a position that is not active, keeps the
/// books balanced; and where the protocol has room for the amount, the fund
/// has too.
///
/// A stake on an active position is left out: it replaces the position and
/// still adds to the totals, after which they count the old stake as well.
pub proof fn stake_keeps_books_balanced(
    books: Books,
    i: int,
    k: int,
    wallet: Pubkey,
    amount: u64,
    tier: u8,
    now: i64,
)
    requires
        books.balanced(),
        0 <= i < books.funds.len(),
        0 <= k < books.users.len(),
        !books.users[k].is_active,
        stake_refusal(books.funds[i], tier).is_none(),
        books.protocol.total_staked + amount <= u64::MAX,
    ensures
        stake_in_range(books.protocol, books.funds[i], amount, tier),
        (Books {
            protocol: protocol_after_stake(books.protocol, amount),
            funds: books.funds.update(i, fund_after_stake(books.funds[i], amount)),
            users: books.users.update(
                k,
                position_after_stake(wallet, books.funds[i].id, amount, tier, now),
            ),
        }).balanced(),
{
    let fund = fund_after_stake(books.funds[i], amount);
    let user = position_after_stake(wallet, books.funds[i].id, amount, tier, now);
    let funds = books.funds.update(i, fund);
    let users = books.users.update(k, user);
    part_within_whole(books.funds, books.users, i, k);
    funds_after_change(books.funds, i, fund);
    assert forall|j: int| 0 <= j < funds.len() implies fund_balanced(#[trigger] funds[j], users) by {
        users_after_change(books.users, k, user, books.funds[j].id);
        assert(fund_balanced(books.funds[j], books.users));
    }
    assert forall|j: int| 0 <= j < users.len() && (#[trigger] users[j]).is_active implies has_fund(
        funds,
        users[j].fund_id,
    ) by {
        if j == k {
            assert(funds[i].id == user.fund_id);
        } else {
            assert(books.users[j].is_active);
            ids_after_change(books.funds, i, fund, users[j].fund_id);
        }
    }
    assert forall|a: int, b: int| 0 <= a < b < funds.len() implies (#[trigger] funds[a]).id != (
    #[trigger] funds[b]).id by {
        assert(funds[a].id == books.funds[a].id);
        assert(funds[b].id == books.funds[b].id);
    }
}

/// On balanced books, a withdrawal that is not refused, from a position and
/// the fund it is bound to, can be booked if only the protocol's paid yield
/// has room for the reward; and it keeps the books balanced.
pub proof fn unstake_keeps_books_balanced(books: Books, i: int, k: int, amount: u64, now: i64)
    requires
        books.balanced(),
        0 <= i < books.funds.len(),
        0 <= k < books.users.len(),
        books.funds[i].id == books.users[k].fund_id,
        unstake_refusal(books.users[k], books.funds[i], amount, now).is_none(),
        books.protocol.total_yield + yield_due(books.users[k], books.funds[i], now).unwrap()
            <= u64::MAX,
    ensures
        unstake_in_range(books.protocol, books.funds[i], books.users[k], amount, now),
        (Books {
            protocol: protocol_after_unstake(
                books.protocol,
                amount,
                yield_due(books.users[k], books.funds[i], now).unwrap(),
            ),
            funds: books.funds.update(i, fund_after_unstake(books.funds[i], books.users[k], amount)),
            users: books.users.update(k, position_after_unstake(books.users[k], amount, now)),
        }).balanced(),
{
    let fund = fund_after_unstake(books.funds[i], books.users[k], amount);
    let user = position_after_unstake(books.users[k], amount, now);
    let funds = books.funds.update(i, fund);
    let users = books.users.update(k, user);
    part_within_whole(books.funds, books.users, i, k);
    funds_after_change(books.funds, i, fund);
    assert forall|j: int| 0 <= j < funds.len() implies fund_balanced(#[trigger] funds[j], users) by {
        users_after_change(books.users, k, user, books.funds[j].id);
        assert(fund_balanced(books.funds[j], books.users));
    }
    assert forall|j: int| 0 <= j < users.len() && (#[trigger] users[j]).is_active implies has_fund(
        funds,
        users[j].fund_id,
    ) by {
        assert(books.users[j].is_active);
        ids_after_change(books.funds, i, fund, users[j].fund_id);
    }
    assert forall|a: int, b: int| 0 <= a < b < funds.len() implies (#[trigger] funds[a]).id != (
    #[trigger] funds[b]).id by {
        assert(funds[a].id == books.funds[a].id);
        assert(funds[b].id == books.funds[b].id);
    }
}

/// A claim that is not refused keeps the books balanced: it moves no stake.
pub proof fn claim_keeps_books_balanced(books: Books, i: int, k: int, now: i64)
    requires
        books.balanced(),
        0 <= i < books.funds.len(),
        0 <= k < books.users.len(),
        claim_refusal(books.users[k], books.funds[i], now).is_none(),
    ensures
        (Books {
            users: books.users.update(
                k,
                position_after_claim(
                    books.users[k],
                    yield_due(books.users[k], books.funds[i], now).unwrap(),
                    now,
                ),
            ),
            ..books
        }).balanced(),
{
    let user = position_after_claim(
        books.users[k],
        yield_due(books.users[k], books.funds[i], now).unwrap(),
        now,
    );
    let users = books.users.update(k, user);
    assert forall|j: int| 0 <= j < books.funds.len() implies fund_balanced(
        #[trigger] books.funds[j],
        users,
    ) by {
        users_after_change(books.users, k, user, books.funds[j].id);
    }
    assert forall|j: int| 0 <= j < users.len() && (#[trigger] users[j]).is_active implies has_fund(
        books.funds,
        users[j].fund_id,
    ) by {
        assert(books.users[j].is_active);
    }
}

/// A tier shuffle keeps the books balanced: it only stamps the fund.
pub proof fn shuffle_keeps_books_balanced(books: Books, i: int, now: i64)
    requires
        books.balanced(),
        0 <= i < books.funds.len(),
    ensures
        (Books {
            funds: books.funds.update(i, Fund { last_shuffle: now, ..books.funds[i] }),
            ..books
        }).balanced(),
{
    let fund = Fund { last_shuffle: now, ..books.funds[i] };
    let funds = books.funds.update(i, fund);
    funds_after_change(books.funds, i, fund);
    assert forall|j: int| 0 <= j < funds.len() implies fund_balanced(
        #[trigger] funds[j],
        books.users,
    ) by {
        assert(fund_balanced(books.funds[j], books.users));
    }
    assert forall|j: int|
        0 <= j < books.users.len() && (#[trigger] books.users[j]).is_active implies has_fund(
        funds,
        books.users[j].fund_id,
    ) by {
        ids_after_change(books.funds, i, fund, books.users[j].fund_id);
    }
    assert forall|a: int, b: int| 0 <= a < b < funds.len() implies (#[trigger] funds[a]).id != (
    #[trigger] funds[b]).id by {
        assert(funds[a].id == books.funds[a].id);
        assert(funds[b].id == books.funds[b].id);
    }
}

/// Another vault keeps the books balanced.
pub proof fn vault_update_keeps_books_balanced(books: Books, new_vault: Pubkey)
    requires
        books.balanced(),
    ensures
        (Books {
            protocol: Protocol { jupiter_vault: new_vault, ..books.protocol },
            ..books
        }).balanced(),
{
}

} // verus!
