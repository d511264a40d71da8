//! The staking state machine.
//!
//! `StakeState` holds everything one pool's operations read and write: the
//! pool record slot, the user ledger, and the custody accounts the token
//! service keeps (the vault among them).  Each operation runs as one atomic
//! unit: it checks every precondition first and either mutates the state and
//! returns `Ok`, or changes nothing and returns the first failing check's
//! error.
//!
//! The central invariant, kept by every operation, is that the pool's
//! `total_staked_amount` equals the sum of all users' staked balances and
//! equals the vault's custody balance.

use vstd::prelude::*;

use crate::accounts::CreateUserAccount;
use crate::accounts::CreateUserAccountView;
use crate::accounts::CustodyAccount;
use crate::accounts::CustodyAccountView;
use crate::accounts::Initialize;
use crate::accounts::InitializeView;
use crate::accounts::PoolEntry;
use crate::accounts::PoolEntryView;
use crate::accounts::PoolSharedAccount;
use crate::accounts::PoolSharedAccountView;
use crate::accounts::Stake;
use crate::accounts::StakeView;
use crate::accounts::Unstake;
use crate::accounts::UnstakeView;
use crate::accounts::UserAccount;
use crate::accounts::UserAccountView;
use crate::accounts::UserEntry;
use crate::accounts::UserEntryView;
use crate::errors::StakeError;
use crate::key::Key;
use crate::pda::create_program_address;
use crate::pda::pda_create;
use crate::pda::pda_find;
use crate::pda::pool_account_seed;
use crate::pda::pool_account_seed_bytes;
use crate::pda::seeds_with_bump;
use crate::pda::single_seed;
use crate::pda::try_find_program_address;
use crate::pda::vault_account_seed;
use crate::pda::vault_account_seed_bytes;
use crate::pda::vault_authority_seed;
use crate::pda::vault_authority_seed_bytes;

verus! {

/// The whole state one pool's operations act on.
pub struct StakeState {
    /// The program's own identity, against which addresses are derived.
    pub program_id: Key,
    /// The pool record slot: `None` until `initialize` fills it.
    pub pool: Option<PoolEntry>,
    /// The user ledger: one record per registered participant.
    pub users: Vec<UserEntry>,
    /// The custody service's token accounts, the vault among them.
    pub custody: Vec<CustodyAccount>,
}

/// The mathematical model of a `StakeState`.
pub struct StakeModel {
    /// The program identity's bytes.
    pub program_id: Seq<u8>,
    /// The pool record slot.
    pub pool: Option<PoolEntryView>,
    /// The user ledger.
    pub users: Seq<UserEntryView>,
    /// The custody accounts.
    pub custody: Seq<CustodyAccountView>,
}

impl View for StakeState {
    type V = StakeModel;

    open spec fn view(&self) -> StakeModel {
        StakeModel {
            program_id: self.program_id@,
            pool: match self.pool {
                Some(p) => Some(p@),
                None => None,
            },
            users: self.users.deep_view(),
            custody: self.custody.deep_view(),
        }
    }
}

/// Whether some custody account has the given address.
pub open spec fn custody_has(custody: Seq<CustodyAccountView>, key: Seq<u8>) -> bool {
    exists|i: int| 0 <= i < custody.len() && custody[i].key == key
}

/// The index of the custody account with the given address (meaningful only
/// where `custody_has` holds; under the invariant the index is unique).
pub open spec fn custody_at(custody: Seq<CustodyAccountView>, key: Seq<u8>) -> int {
    choose|i: int| 0 <= i < custody.len() && custody[i].key == key
}

/// Whether some user record lives at the given slot address.
pub open spec fn user_has(users: Seq<UserEntryView>, addr: Seq<u8>) -> bool {
    exists|i: int| 0 <= i < users.len() && users[i].address == addr
}

/// The index of the user record at the given slot address (meaningful only
/// where `user_has` holds; under the invariant the index is unique).
pub open spec fn user_at(users: Seq<UserEntryView>, addr: Seq<u8>) -> int {
    choose|i: int| 0 <= i < users.len() && users[i].address == addr
}

/// The sum of all staked balances in the user ledger.
pub open spec fn sum_staked(users: Seq<UserEntryView>) -> int
    decreases users.len(),
{
    if users.len() == 0 {
        0
    } else {
        users[0].record.staked_amount + sum_staked(users.drop_first())
    }
}

impl StakeModel {
    /// No two custody accounts share an address.
    pub open spec fn custody_keys_unique(self) -> bool {
        forall|i: int, j: int|
            0 <= i < j < self.custody.len() ==> self.custody[i].key != self.custody[j].key
    }

    /// No two user records share a slot address.
    pub open spec fn user_addresses_unique(self) -> bool {
        forall|i: int, j: int|
            0 <= i < j < self.users.len() ==> self.users[i].address != self.users[j].address
    }

    /// The pool's aggregate equals the sum of all users' staked balances.
    pub open spec fn total_matches_users(self) -> bool {
        self.pool matches Some(p) ==> p.record.total_staked_amount == sum_staked(self.users)
    }

    /// The vault exists and its custody balance equals the pool's aggregate.
    pub open spec fn total_matches_vault(self) -> bool {
        self.pool matches Some(p) ==> {
            &&& custody_has(self.custody, p.record.pool_vault_account_key)
            &&& self.custody[custody_at(
                self.custody,
                p.record.pool_vault_account_key,
            )].amount == p.record.total_staked_amount
        }
    }

    /// Before the pool exists nothing can have been staked.
    pub open spec fn zero_before_pool(self) -> bool {
        self.pool is None ==> forall|i: int|
            0 <= i < self.users.len() ==> self.users[i].record.staked_amount == 0
    }

    /// The state invariant: well-formed stores, and the pool's aggregate in
    /// step with both the user ledger and the vault's custody balance.
    pub open spec fn inv(self) -> bool {
        &&& self.custody_keys_unique()
        &&& self.user_addresses_unique()
        &&& self.total_matches_users()
        &&& self.total_matches_vault()
        &&& self.zero_before_pool()
    }
}

/// Summing a ledger of all-zero balances gives zero.
pub proof fn lemma_sum_zero(users: Seq<UserEntryView>)
    requires
        forall|i: int| 0 <= i < users.len() ==> users[i].record.staked_amount == 0,
    ensures
        sum_staked(users) == 0,
    decreases users.len(),
{
    if users.len() > 0 {
        assert(users[0].record.staked_amount == 0);
        lemma_sum_zero(users.drop_first());
    }
}

/// Appending a record adds its balance to the sum.
pub proof fn lemma_sum_push(users: Seq<UserEntryView>, e: UserEntryView)
    ensures
        sum_staked(users.push(e)) == sum_staked(users) + e.record.staked_amount,
    decreases users.len(),
{
    if users.len() == 0 {
        assert(users.push(e).drop_first() =~= users);
    } else {
        assert(users.push(e).drop_first() =~= users.drop_first().push(e));
        lemma_sum_push(users.drop_first(), e);
    }
}

/// Replacing one record changes the sum by the difference of its balance.
pub proof fn lemma_sum_update(users: Seq<UserEntryView>, i: int, e: UserEntryView)
    requires
        0 <= i < users.len(),
    ensures
        sum_staked(users.update(i, e)) == sum_staked(users) - users[i].record.staked_amount
            + e.record.staked_amount,
    decreases users.len(),
{
    if i == 0 {
        assert(users.update(0, e).drop_first() =~= users.drop_first());
    } else {
        assert(users.update(i, e).drop_first() =~= users.drop_first().update(i - 1, e));
        lemma_sum_update(users.drop_first(), i - 1, e);
    }
}

/// No single staked balance exceeds the sum of all of them.
pub proof fn lemma_sum_bounds_element(users: Seq<UserEntryView>, i: int)
    requires
        0 <= i < users.len(),
    ensures
        users[i].record.staked_amount <= sum_staked(users),
    decreases users.len(),
{
    lemma_sum_nonneg(users.drop_first());
    if i > 0 {
        lemma_sum_bounds_element(users.drop_first(), i - 1);
    }
}

/// The sum of staked balances is never negative.
pub proof fn lemma_sum_nonneg(users: Seq<UserEntryView>)
    ensures
        sum_staked(users) >= 0,
    decreases users.len(),
{
    if users.len() > 0 {
        lemma_sum_nonneg(users.drop_first());
    }
}

/// Find the custody account with the given address.
fn find_custody(custody: &Vec<CustodyAccount>, key: &Key) -> (r: Option<usize>)
    ensures
        match r {
            Some(i) => i < custody.len() && custody.deep_view()[i as int].key == key@,
            None => !custody_has(custody.deep_view(), key@),
        },
{
    let n = custody.len();
    let mut i: usize = 0;
    while i < n
        invariant
            i <= n,
            n == custody@.len(),
            forall|j: int| 0 <= j < i ==> custody.deep_view()[j].key != key@,
        decreases n - i,
    {
        if custody[i].key.eq_key(key) {
            return Some(i);
        }
        i += 1;
    }
    None
}

/// Find the user record at the given slot address.
fn find_user(users: &Vec<UserEntry>, addr: &Key) -> (r: Option<usize>)
    ensures
        match r {
            Some(i) => i < users.len() && users.deep_view()[i as int].address == addr@,
            None => !user_has(users.deep_view(), addr@),
        },
{
    let n = users.len();
    let mut i: usize = 0;
    while i < n
        invariant
            i <= n,
            n == users@.len(),
            forall|j: int| 0 <= j < i ==> users.deep_view()[j].address != addr@,
        decreases n - i,
    {
        if users[i].address.eq_key(addr) {
            return Some(i);
        }
        i += 1;
    }
    None
}

/// The outcome `initialize` owes: either the first failing check's error, or
/// the state with the pool record written, the vault created under the
/// initializer and its authority reassigned to the derived vault authority.
pub open spec fn spec_initialize(
    m: StakeModel,
    ctx: InitializeView,
    pool_vault_account_bump: u8,
    pool_shared_account_bump: u8,
) -> Result<StakeModel, StakeError> {
    if m.pool is Some || custody_has(m.custody, ctx.pool_vault_account) {
        Err(StakeError::AccountAlreadyInitialized)
    } else if pda_create(
        seq![vault_account_seed(), seq![pool_vault_account_bump]],
        m.program_id,
    ) != Some(ctx.pool_vault_account) || pda_create(
        seq![pool_account_seed(), seq![pool_shared_account_bump]],
        m.program_id,
    ) != Some(ctx.pool_shared_account) || pda_find(seq![vault_authority_seed()], m.program_id)
        is None {
        Err(StakeError::BumpMismatch)
    } else {
        let authority = pda_find(seq![vault_authority_seed()], m.program_id).unwrap().0;
        Ok(
            StakeModel {
                pool: Some(
                    PoolEntryView {
                        address: ctx.pool_shared_account,
                        record: PoolSharedAccountView {
                            initializer_key: ctx.initializer,
                            pool_vault_account_key: ctx.pool_vault_account,
                            total_staked_amount: 0,
                        },
                    },
                ),
                custody: m.custody.push(
                    CustodyAccountView {
                        key: ctx.pool_vault_account,
                        mint: ctx.mint,
                        authority,
                        amount: 0,
                    },
                ),
                ..m
            },
        )
    }
}

/// The outcome `create_user_account` owes: either the first failing check's
/// error, or the state with a fresh user record appended.
pub open spec fn spec_create_user_account(
    m: StakeModel,
    ctx: CreateUserAccountView,
    bump: u8,
) -> Result<StakeModel, StakeError> {
    if user_has(m.users, ctx.user_account) {
        Err(StakeError::AccountAlreadyInitialized)
    } else if pda_create(seq![ctx.user, seq![bump]], m.program_id) != Some(ctx.user_account) {
        Err(StakeError::BumpMismatch)
    } else {
        Ok(
            StakeModel {
                users: m.users.push(
                    UserEntryView {
                        address: ctx.user_account,
                        record: UserAccountView {
                            user_key: ctx.user,
                            user_token_account_key: ctx.user_token_account,
                            staked_amount: 0,
                            bump,
                        },
                    },
                ),
                ..m
            },
        )
    }
}

/// The outcome `stake` owes: either the first failing check's error, or the
/// state with the user's balance and the pool's aggregate raised by the
/// amount and the amount moved from the user's token account to the vault.
pub open spec fn spec_stake(m: StakeModel, ctx: StakeView, amount: u64) -> Result<
    StakeModel,
    StakeError,
> {
    let p = m.pool.unwrap();
    let ui = user_at(m.users, ctx.user_account);
    let u = m.users[ui];
    let vk = p.record.pool_vault_account_key;
    if u.record.user_key != ctx.user {
        Err(StakeError::IdentityMismatch)
    } else if u.record.user_token_account_key != ctx.user_token_account {
        Err(StakeError::LinkMismatch)
    } else if ctx.pool_vault_account != vk {
        Err(StakeError::LinkMismatch)
    } else if ctx.user_token_account == vk {
        Err(StakeError::LinkMismatch)
    } else {
        let ti = custody_at(m.custody, ctx.user_token_account);
        let t = m.custody[ti];
        if t.amount < amount {
            Err(StakeError::InsufficientBalance)
        } else if t.authority != ctx.user {
            Err(StakeError::CustodyServiceFailure)
        } else if u.record.staked_amount + amount > u64::MAX {
            Err(StakeError::ArithmeticOverflow)
        } else if p.record.total_staked_amount + amount > u64::MAX {
            Err(StakeError::ArithmeticOverflow)
        } else {
            let vi = custody_at(m.custody, vk);
            let v = m.custody[vi];
            Ok(
                StakeModel {
                    pool: Some(
                        PoolEntryView {
                            record: PoolSharedAccountView {
                                total_staked_amount: (p.record.total_staked_amount + amount) as u64,
                                ..p.record
                            },
                            ..p
                        },
                    ),
                    users: m.users.update(
                        ui,
                        UserEntryView {
                            record: UserAccountView {
                                staked_amount: (u.record.staked_amount + amount) as u64,
                                ..u.record
                            },
                            ..u
                        },
                    ),
                    custody: m.custody.update(
                        ti,
                        CustodyAccountView { amount: (t.amount - amount) as u64, ..t },
                    ).update(vi, CustodyAccountView { amount: (v.amount + amount) as u64, ..v }),
                    ..m
                },
            )
        }
    }
}

/// The outcome `unstake` owes: either the first failing check's error, or
/// the state with the user's balance and the pool's aggregate lowered by the
/// amount and the amount moved from the vault back to the user's token
/// account, authorized by the re-derived vault authority.
pub open spec fn spec_unstake(
    m: StakeModel,
    ctx: UnstakeView,
    amount: u64,
) -> Result<StakeModel, StakeError> {
    let p = m.pool.unwrap();
    let ui = user_at(m.users, ctx.user_account);
    let u = m.users[ui];
    let vk = p.record.pool_vault_account_key;
    if u.record.user_key != ctx.user {
        Err(StakeError::IdentityMismatch)
    } else if u.record.user_token_account_key != ctx.user_token_account {
        Err(StakeError::LinkMismatch)
    } else if ctx.pool_vault_account != vk {
        Err(StakeError::LinkMismatch)
    } else if ctx.user_token_account == vk {
        Err(StakeError::LinkMismatch)
    } else if u.record.staked_amount < amount {
        Err(StakeError::InsufficientBalance)
    } else if pda_find(seq![vault_authority_seed()], m.program_id) is None {
        Err(StakeError::CustodyServiceFailure)
    } else {
        let authority = pda_find(seq![vault_authority_seed()], m.program_id).unwrap().0;
        let ti = custody_at(m.custody, ctx.user_token_account);
        let t = m.custody[ti];
        let vi = custody_at(m.custody, vk);
        let v = m.custody[vi];
        if ctx.pool_vault_authority != authority {
            Err(StakeError::CustodyServiceFailure)
        } else if v.authority != authority {
            Err(StakeError::CustodyServiceFailure)
        } else if t.amount + amount > u64::MAX {
            Err(StakeError::CustodyServiceFailure)
        } else {
            Ok(
                StakeModel {
                    pool: Some(
                        PoolEntryView {
                            record: PoolSharedAccountView {
                                total_staked_amount: (p.record.total_staked_amount - amount) as u64,
                                ..p.record
                            },
                            ..p
                        },
                    ),
                    users: m.users.update(
                        ui,
                        UserEntryView {
                            record: UserAccountView {
                                staked_amount: (u.record.staked_amount - amount) as u64,
                                ..u.record
                            },
                            ..u
                        },
                    ),
                    custody: m.custody.update(
                        vi,
                        CustodyAccountView { amount: (v.amount - amount) as u64, ..v },
                    ).update(ti, CustodyAccountView { amount: (t.amount + amount) as u64, ..t }),
                    ..m
                },
            )
        }
    }
}

/// Whether two custody ledgers agree on every account's address, token
/// class and authority, differing at most in balances.
pub open spec fn same_custody_accounts(
    a: Seq<CustodyAccountView>,
    b: Seq<CustodyAccountView>,
) -> bool {
    &&& a.len() == b.len()
    &&& forall|i: int|
        0 <= i < a.len() ==> ((#[trigger] a[i]).key == b[i].key && a[i].mint == b[i].mint
            && a[i].authority == b[i].authority)
}

/// A successful stake moves custody balances only: every account keeps its
/// address, token class and authority.  In particular the vault's authority
/// remains the derived vault authority that `initialize` assigned — no later
/// stake can hand vault custody back to a private key.
pub proof fn lemma_stake_moves_balances_only(m: StakeModel, ctx: StakeView, amount: u64)
    requires
        m.inv(),
        m.pool is Some,
        custody_has(m.custody, ctx.user_token_account),
        spec_stake(m, ctx, amount) is Ok,
    ensures
        same_custody_accounts(m.custody, spec_stake(m, ctx, amount).unwrap().custody),
{
    let c2 = spec_stake(m, ctx, amount).unwrap().custody;
    assert forall|i: int| 0 <= i < m.custody.len() implies ((#[trigger] m.custody[i]).key
        == c2[i].key && m.custody[i].mint == c2[i].mint && m.custody[i].authority
        == c2[i].authority) by {}
}

/// A successful unstake moves custody balances only: every account keeps
/// its address, token class and authority, so the vault's authority remains
/// the derived vault authority forever.
pub proof fn lemma_unstake_moves_balances_only(m: StakeModel, ctx: UnstakeView, amount: u64)
    requires
        m.inv(),
        m.pool is Some,
        custody_has(m.custody, ctx.user_token_account),
        spec_unstake(m, ctx, amount) is Ok,
    ensures
        same_custody_accounts(m.custody, spec_unstake(m, ctx, amount).unwrap().custody),
{
    let c2 = spec_unstake(m, ctx, amount).unwrap().custody;
    assert forall|i: int| 0 <= i < m.custody.len() implies ((#[trigger] m.custody[i]).key
        == c2[i].key && m.custody[i].mint == c2[i].mint && m.custody[i].authority
        == c2[i].authority) by {}
}

/// Stakes by two distinct participants, through distinct token accounts, are
/// independent of call order: if performing the first and then the second
/// succeeds, so does the other order, and both orders reach the same state.
pub proof fn lemma_stake_order_independent(
    m: StakeModel,
    ctx1: StakeView,
    a1: u64,
    ctx2: StakeView,
    a2: u64,
)
    requires
        m.inv(),
        m.pool is Some,
        user_has(m.users, ctx1.user_account),
        user_has(m.users, ctx2.user_account),
        custody_has(m.custody, ctx1.user_token_account),
        custody_has(m.custody, ctx2.user_token_account),
        ctx1.user_account != ctx2.user_account,
        ctx1.user_token_account != ctx2.user_token_account,
        spec_stake(m, ctx1, a1) is Ok,
        spec_stake(spec_stake(m, ctx1, a1).unwrap(), ctx2, a2) is Ok,
    ensures
        spec_stake(m, ctx2, a2) is Ok,
        spec_stake(spec_stake(m, ctx2, a2).unwrap(), ctx1, a1) is Ok,
        spec_stake(spec_stake(m, ctx1, a1).unwrap(), ctx2, a2) == spec_stake(
            spec_stake(m, ctx2, a2).unwrap(),
            ctx1,
            a1,
        ),
{
    let p = m.pool.unwrap();
    let vk = p.record.pool_vault_account_key;
    let ui1 = user_at(m.users, ctx1.user_account);
    let ui2 = user_at(m.users, ctx2.user_account);
    assert(0 <= ui1 < m.users.len() && m.users[ui1].address == ctx1.user_account);
    assert(0 <= ui2 < m.users.len() && m.users[ui2].address == ctx2.user_account);
    assert(ui1 != ui2);
    let ti1 = custody_at(m.custody, ctx1.user_token_account);
    let ti2 = custody_at(m.custody, ctx2.user_token_account);
    assert(0 <= ti1 < m.custody.len() && m.custody[ti1].key == ctx1.user_token_account);
    assert(0 <= ti2 < m.custody.len() && m.custody[ti2].key == ctx2.user_token_account);
    assert(ti1 != ti2);
    let vi = custody_at(m.custody, vk);
    assert(0 <= vi < m.custody.len() && m.custody[vi].key == vk);

    let m1 = spec_stake(m, ctx1, a1).unwrap();
    assert(vi != ti1);
    assert(m1.pool.unwrap().record.pool_vault_account_key == vk);
    // Lookups in the once-staked state land on the same entries.
    assert(m1.users.len() == m.users.len());
    assert(m1.users[ui2] == m.users[ui2]);
    assert(user_has(m1.users, ctx2.user_account));
    let ui2b = user_at(m1.users, ctx2.user_account);
    assert(0 <= ui2b < m1.users.len() && m1.users[ui2b].address == ctx2.user_account);
    assert forall|i: int, j: int| 0 <= i < j < m1.users.len() implies m1.users[i].address
        != m1.users[j].address by {
        assert(m1.users[i].address == m.users[i].address);
        assert(m1.users[j].address == m.users[j].address);
    }
    assert(ui2b == ui2);
    assert(m1.custody.len() == m.custody.len());
    assert forall|i: int| 0 <= i < m.custody.len() implies m1.custody[i].key
        == m.custody[i].key by {}
    assert(custody_has(m1.custody, ctx2.user_token_account));
    let ti2b = custody_at(m1.custody, ctx2.user_token_account);
    assert(0 <= ti2b < m1.custody.len() && m1.custody[ti2b].key == ctx2.user_token_account);
    assert forall|i: int, j: int| 0 <= i < j < m1.custody.len() implies m1.custody[i].key
        != m1.custody[j].key by {
        assert(m1.custody[i].key == m.custody[i].key);
        assert(m1.custody[j].key == m.custody[j].key);
    }
    assert(ti2b == ti2);
    let vib = custody_at(m1.custody, vk);
    assert(0 <= vib < m1.custody.len() && m1.custody[vib].key == vk);
    assert(vib == vi);
    assert(ti2 != vi);
    assert(m1.custody[ti2] == m.custody[ti2]);

    // The second stake's checks in the once-staked state carry back to the
    // starting state, so the swapped first stake succeeds there too.
    assert(spec_stake(m, ctx2, a2) is Ok);
    let m2 = spec_stake(m, ctx2, a2).unwrap();
    assert(m2.users[ui1] == m.users[ui1]);
    assert(user_has(m2.users, ctx1.user_account));
    let ui1b = user_at(m2.users, ctx1.user_account);
    assert(0 <= ui1b < m2.users.len() && m2.users[ui1b].address == ctx1.user_account);
    assert forall|i: int, j: int| 0 <= i < j < m2.users.len() implies m2.users[i].address
        != m2.users[j].address by {
        assert(m2.users[i].address == m.users[i].address);
        assert(m2.users[j].address == m.users[j].address);
    }
    assert(ui1b == ui1);
    assert forall|i: int| 0 <= i < m.custody.len() implies m2.custody[i].key
        == m.custody[i].key by {}
    assert(custody_has(m2.custody, ctx1.user_token_account));
    let ti1b = custody_at(m2.custody, ctx1.user_token_account);
    assert(0 <= ti1b < m2.custody.len() && m2.custody[ti1b].key == ctx1.user_token_account);
    assert forall|i: int, j: int| 0 <= i < j < m2.custody.len() implies m2.custody[i].key
        != m2.custody[j].key by {
        assert(m2.custody[i].key == m.custody[i].key);
        assert(m2.custody[j].key == m.custody[j].key);
    }
    assert(ti1b == ti1);
    let vic = custody_at(m2.custody, vk);
    assert(0 <= vic < m2.custody.len() && m2.custody[vic].key == vk);
    assert(vic == vi);
    assert(m2.custody[ti1] == m.custody[ti1]);
    assert(spec_stake(m2, ctx1, a1) is Ok);

    // Both orders reach the same state.
    let m12 = spec_stake(m1, ctx2, a2).unwrap();
    let m21 = spec_stake(m2, ctx1, a1).unwrap();
    assert(m12.users =~= m21.users);
    assert(m12.custody =~= m21.custody);
    assert(m12.pool == m21.pool);
    assert(m12 == m21);
}

impl StakeState {
    /// A fresh state for a program identity: no pool, no users, no custody
    /// accounts.
    pub fn new(program_id: Key) -> (s: StakeState)
        ensures
            s@.inv(),
            s@.program_id == program_id@,
            s@.pool is None,
            s@.users.len() == 0,
            s@.custody.len() == 0,
    {
        StakeState { program_id, pool: None, users: Vec::new(), custody: Vec::new() }
    }

    /// Add a custody account to the model, as the token service does when a
    /// participant opens a token account.  Refused when the address is taken.
    pub fn open_custody_account(&mut self, account: CustodyAccount) -> (r: Result<(), StakeError>)
        requires
            old(self)@.inv(),
        ensures
            final(self)@.inv(),
            match r {
                Ok(()) => !custody_has(old(self)@.custody, account.key@) && final(self)@
                    == (StakeModel { custody: old(self)@.custody.push(account@), ..old(self)@ }),
                Err(e) => e == StakeError::AccountAlreadyInitialized && custody_has(
                    old(self)@.custody,
                    account.key@,
                ) && final(self)@ == old(self)@,
            },
    {
        match find_custody(&self.custody, &account.key) {
            Some(_) => Err(StakeError::AccountAlreadyInitialized),
            None => {
                self.custody.push(account);
                proof {
                    assert(self.custody.deep_view() =~= old(self).custody.deep_view().push(
                        account@,
                    ));
                    assert(self@ == (StakeModel {
                        custody: old(self)@.custody.push(account@),
                        ..old(self)@
                    }));
                    let c = self@.custody;
                    let oc = old(self)@.custody;
                    assert forall|i: int, j: int| 0 <= i < j < c.len() implies c[i].key
                        != c[j].key by {
                        if j == c.len() - 1 {
                            assert(oc[i].key != account.key@);
                        }
                    }
                    match old(self)@.pool {
                        Some(p) => {
                            let vk = p.record.pool_vault_account_key;
                            let i0 = custody_at(oc, vk);
                            assert(c[i0].key == vk);
                            assert(custody_has(c, vk));
                            let i1 = custody_at(c, vk);
                            assert(0 <= i1 < c.len() && c[i1].key == vk);
                            if i1 == c.len() - 1 {
                                assert(custody_has(oc, account.key@));
                                assert(false);
                            }
                            assert(i1 == i0);
                            assert(c[i1].amount == p.record.total_staked_amount);
                        },
                        None => {},
                    }
                }
                Ok(())
            },
        }
    }

    /// Create the pool: write the pool record, allocate the vault custody
    /// account for the given token class under the initializer's authority,
    /// and reassign that authority to the derived vault authority, so that
    /// from then on only re-derivation by the program can move vault funds.
    ///
    /// The initializer is the authenticated transaction signer.  Fails with
    /// `AccountAlreadyInitialized` when the pool slot or the vault address is
    /// already in use, and with `BumpMismatch` when a supplied bump does not
    /// reproduce the matching allocated address (or no vault authority
    /// derivation exists).
    pub fn initialize(
        &mut self,
        ctx: &Initialize,
        pool_vault_account_bump: u8,
        pool_shared_account_bump: u8,
    ) -> (r: Result<(), StakeError>)
        requires
            old(self)@.inv(),
        ensures
            final(self)@.inv(),
            match r {
                Ok(()) => spec_initialize(
                    old(self)@,
                    ctx@,
                    pool_vault_account_bump,
                    pool_shared_account_bump,
                ) == Ok::<StakeModel, StakeError>(final(self)@),
                Err(e) => spec_initialize(
                    old(self)@,
                    ctx@,
                    pool_vault_account_bump,
                    pool_shared_account_bump,
                ) == Err::<StakeModel, StakeError>(e) && final(self)@ == old(self)@,
            },
    {
        if self.pool.is_some() {
            return Err(StakeError::AccountAlreadyInitialized);
        }
        if find_custody(&self.custody, &ctx.pool_vault_account).is_some() {
            return Err(StakeError::AccountAlreadyInitialized);
        }
        let vault_seeds = seeds_with_bump(vault_account_seed_bytes(), pool_vault_account_bump);
        let vault_ok = match create_program_address(&vault_seeds, &self.program_id) {
            Some(k) => k.eq_key(&ctx.pool_vault_account),
            None => false,
        };
        if !vault_ok {
            return Err(StakeError::BumpMismatch);
        }
        let pool_seeds = seeds_with_bump(pool_account_seed_bytes(), pool_shared_account_bump);
        let pool_ok = match create_program_address(&pool_seeds, &self.program_id) {
            Some(k) => k.eq_key(&ctx.pool_shared_account),
            None => false,
        };
        if !pool_ok {
            return Err(StakeError::BumpMismatch);
        }
        let authority_seeds = single_seed(vault_authority_seed_bytes());
        let authority = match try_find_program_address(&authority_seeds, &self.program_id) {
            Some((k, _bump)) => k,
            None => {
                return Err(StakeError::BumpMismatch);
            },
        };
        self.pool = Some(
            PoolEntry {
                address: ctx.pool_shared_account,
                record: PoolSharedAccount {
                    initializer_key: ctx.initializer,
                    pool_vault_account_key: ctx.pool_vault_account,
                    total_staked_amount: 0,
                },
            },
        );
        self.custody.push(
            CustodyAccount { key: ctx.pool_vault_account, mint: ctx.mint, authority, amount: 0 },
        );
        proof {
            assert(self.custody.deep_view() =~= old(self).custody.deep_view().push(
                CustodyAccountView {
                    key: ctx.pool_vault_account@,
                    mint: ctx.mint@,
                    authority: authority@,
                    amount: 0,
                },
            ));
            assert(Ok::<StakeModel, StakeError>(self@) == spec_initialize(
                old(self)@,
                ctx@,
                pool_vault_account_bump,
                pool_shared_account_bump,
            ));
            lemma_sum_zero(self@.users);
            let vk = ctx.pool_vault_account@;
            let c = self@.custody;
            assert(c[c.len() - 1].key == vk);
            assert(custody_has(c, vk));
            assert forall|i: int| 0 <= i < c.len() && c[i].key == vk implies i == c.len() - 1 by {
                if i < c.len() - 1 {
                    assert(!custody_has(old(self)@.custody, vk));
                    assert(old(self)@.custody[i].key != vk);
                }
            }
            assert(c[custody_at(c, vk)].amount == 0);
            assert(self@.inv());
        }
        Ok(())
    }

    /// Register a participant: write a fresh user record linking the signer
    /// to their token account, with a zero staked balance and the derivation
    /// bump stored for later re-derivation.
    ///
    /// The participant is the authenticated transaction signer.  Fails with
    /// `AccountAlreadyInitialized` when the record slot is already in use,
    /// and with `BumpMismatch` when the bump does not re-derive the slot's
    /// address from the participant's identity.
    pub fn create_user_account(&mut self, ctx: &CreateUserAccount, bump: u8) -> (r: Result<
        (),
        StakeError,
    >)
        requires
            old(self)@.inv(),
        ensures
            final(self)@.inv(),
            match r {
                Ok(()) => spec_create_user_account(old(self)@, ctx@, bump) == Ok::<
                    StakeModel,
                    StakeError,
                >(final(self)@),
                Err(e) => spec_create_user_account(old(self)@, ctx@, bump) == Err::<
                    StakeModel,
                    StakeError,
                >(e) && final(self)@ == old(self)@,
            },
    {
        if find_user(&self.users, &ctx.user_account).is_some() {
            return Err(StakeError::AccountAlreadyInitialized);
        }
        let user_seed = vstd::slice::slice_to_vec(&ctx.user.bytes);
        proof {
            assert(user_seed@ =~= ctx.user@);
        }
        let record_seeds = seeds_with_bump(user_seed, bump);
        let record_ok = match create_program_address(&record_seeds, &self.program_id) {
            Some(k) => k.eq_key(&ctx.user_account),
            None => false,
        };
        if !record_ok {
            return Err(StakeError::BumpMismatch);
        }
        let entry = UserEntry {
            address: ctx.user_account,
            record: UserAccount {
                user_key: ctx.user,
                user_token_account_key: ctx.user_token_account,
                staked_amount: 0,
                bump,
            },
        };
        self.users.push(entry);
        proof {
            assert(self.users.deep_view() =~= old(self).users.deep_view().push(entry@));
            assert(Ok::<StakeModel, StakeError>(self@) == spec_create_user_account(
                old(self)@,
                ctx@,
                bump,
            ));
            lemma_sum_push(old(self)@.users, entry@);
            let u = self@.users;
            assert forall|i: int, j: int| 0 <= i < j < u.len() implies u[i].address
                != u[j].address by {
                if j == u.len() - 1 {
                    assert(!user_has(old(self)@.users, ctx.user_account@));
                    assert(old(self)@.users[i].address != ctx.user_account@);
                }
            }
            assert(self@.custody == old(self)@.custody);
            assert(self@.inv());
        }
        Ok(())
    }

    /// Stake: raise the signer's staked balance and the pool's aggregate by
    /// `stake_amount` and move that amount from the signer's token account
    /// into the vault, all atomically.  Zero amounts are permitted no-ops.
    ///
    /// The participant is the authenticated transaction signer; the runtime
    /// has already resolved every named account, so the record and both
    /// custody accounts are required to exist.  The first failing check
    /// aborts the operation with its error and no state change: the record
    /// must be owned by the signer, the token account must be the recorded
    /// one (and not the vault itself), the supplied vault must be the pool's,
    /// the token balance must cover the amount, the custody service honors
    /// only the account authority's signature, and both checked additions
    /// must fit.
    pub fn stake(&mut self, ctx: &Stake, stake_amount: u64) -> (r: Result<(), StakeError>)
        requires
            old(self)@.inv(),
            old(self)@.pool matches Some(p) && p.address == ctx.pool_shared_account@,
            user_has(old(self)@.users, ctx.user_account@),
            custody_has(old(self)@.custody, ctx.user_token_account@),
        ensures
            final(self)@.inv(),
            match r {
                Ok(()) => spec_stake(old(self)@, ctx@, stake_amount) == Ok::<
                    StakeModel,
                    StakeError,
                >(final(self)@),
                Err(e) => spec_stake(old(self)@, ctx@, stake_amount) == Err::<
                    StakeModel,
                    StakeError,
                >(e) && final(self)@ == old(self)@,
            },
    {
        let ghost m = old(self)@;
        let ui = match find_user(&self.users, &ctx.user_account) {
            Some(i) => i,
            None => vstd::pervasive::unreached(),
        };
        proof {
            let ui0 = user_at(m.users, ctx.user_account@);
            assert(0 <= ui0 < m.users.len() && m.users[ui0].address == ctx.user_account@);
            assert(ui as int == ui0);
        }
        let uentry = self.users[ui];
        let pool_entry = match self.pool {
            Some(p) => p,
            None => vstd::pervasive::unreached(),
        };
        if !uentry.record.user_key.eq_key(&ctx.user) {
            return Err(StakeError::IdentityMismatch);
        }
        if !uentry.record.user_token_account_key.eq_key(&ctx.user_token_account) {
            return Err(StakeError::LinkMismatch);
        }
        if !ctx.pool_vault_account.eq_key(&pool_entry.record.pool_vault_account_key) {
            return Err(StakeError::LinkMismatch);
        }
        if ctx.user_token_account.eq_key(&pool_entry.record.pool_vault_account_key) {
            return Err(StakeError::LinkMismatch);
        }
        let ti = match find_custody(&self.custody, &ctx.user_token_account) {
            Some(i) => i,
            None => vstd::pervasive::unreached(),
        };
        proof {
            let ti0 = custody_at(m.custody, ctx.user_token_account@);
            assert(0 <= ti0 < m.custody.len() && m.custody[ti0].key == ctx.user_token_account@);
            assert(ti as int == ti0);
        }
        let token = self.custody[ti];
        if token.amount < stake_amount {
            return Err(StakeError::InsufficientBalance);
        }
        if !token.authority.eq_key(&ctx.user) {
            return Err(StakeError::CustodyServiceFailure);
        }
        if stake_amount > u64::MAX - uentry.record.staked_amount {
            return Err(StakeError::ArithmeticOverflow);
        }
        if stake_amount > u64::MAX - pool_entry.record.total_staked_amount {
            return Err(StakeError::ArithmeticOverflow);
        }
        proof {
            assert(custody_has(m.custody, pool_entry@.record.pool_vault_account_key));
        }
        let vi = match find_custody(&self.custody, &pool_entry.record.pool_vault_account_key) {
            Some(i) => i,
            None => vstd::pervasive::unreached(),
        };
        proof {
            let vk = pool_entry@.record.pool_vault_account_key;
            let vi0 = custody_at(m.custody, vk);
            assert(0 <= vi0 < m.custody.len() && m.custody[vi0].key == vk);
            assert(vi as int == vi0);
            assert(vi != ti);
            assert(m.custody[vi as int].amount == pool_entry@.record.total_staked_amount);
        }
        let vault = self.custody[vi];
        let mut new_user = uentry;
        new_user.record.staked_amount = uentry.record.staked_amount + stake_amount;
        self.users[ui] = new_user;
        let mut new_pool = pool_entry;
        new_pool.record.total_staked_amount = pool_entry.record.total_staked_amount + stake_amount;
        self.pool = Some(new_pool);
        let mut new_token = token;
        new_token.amount = token.amount - stake_amount;
        self.custody[ti] = new_token;
        let mut new_vault = vault;
        new_vault.amount = vault.amount + stake_amount;
        self.custody[vi] = new_vault;
        proof {
            assert(self.users.deep_view() =~= m.users.update(ui as int, new_user@));
            assert(self.custody.deep_view() =~= m.custody.update(ti as int, new_token@).update(
                vi as int,
                new_vault@,
            ));
            assert(Ok::<StakeModel, StakeError>(self@) == spec_stake(m, ctx@, stake_amount));
            lemma_sum_update(m.users, ui as int, new_user@);
            let c = self@.custody;
            assert forall|i: int, j: int| 0 <= i < j < c.len() implies c[i].key != c[j].key by {
                assert(c[i].key == m.custody[i].key);
                assert(c[j].key == m.custody[j].key);
            }
            let u = self@.users;
            assert forall|i: int, j: int| 0 <= i < j < u.len() implies u[i].address
                != u[j].address by {
                assert(u[i].address == m.users[i].address);
                assert(u[j].address == m.users[j].address);
            }
            let vk = pool_entry@.record.pool_vault_account_key;
            assert(c[vi as int].key == vk);
            assert(custody_has(c, vk));
            let nvi = custody_at(c, vk);
            assert(0 <= nvi < c.len() && c[nvi].key == vk);
            assert(nvi == vi as int);
            assert(c[nvi].amount == new_pool@.record.total_staked_amount);
            assert(self@.inv());
        }
        Ok(())
    }

    /// Unstake: lower the signer's staked balance and the pool's aggregate
    /// by `unstake_amount` and move that amount from the vault back to the
    /// signer's token account, authorized not by any private key but by
    /// re-deriving the vault authority from the fixed seed and the program's
    /// identity.  Zero amounts are permitted no-ops.
    ///
    /// The participant is the authenticated transaction signer; the runtime
    /// has already resolved every named account.  The first failing check
    /// aborts the operation with its error and no state change: the same
    /// identity and link checks as `stake`, the staked balance must cover
    /// the amount, and the custody service accepts the transfer only when
    /// the presented authority and the vault's recorded authority both equal
    /// the re-derived address and the recipient's balance can take the
    /// amount.
    pub fn unstake(&mut self, ctx: &Unstake, unstake_amount: u64) -> (r: Result<(), StakeError>)
        requires
            old(self)@.inv(),
            old(self)@.pool matches Some(p) && p.address == ctx.pool_shared_account@,
            user_has(old(self)@.users, ctx.user_account@),
            custody_has(old(self)@.custody, ctx.user_token_account@),
        ensures
            final(self)@.inv(),
            match r {
                Ok(()) => spec_unstake(old(self)@, ctx@, unstake_amount) == Ok::<
                    StakeModel,
                    StakeError,
                >(final(self)@),
                Err(e) => spec_unstake(old(self)@, ctx@, unstake_amount) == Err::<
                    StakeModel,
                    StakeError,
                >(e) && final(self)@ == old(self)@,
            },
    {
        let ghost m = old(self)@;
        let ui = match find_user(&self.users, &ctx.user_account) {
            Some(i) => i,
            None => vstd::pervasive::unreached(),
        };
        proof {
            let ui0 = user_at(m.users, ctx.user_account@);
            assert(0 <= ui0 < m.users.len() && m.users[ui0].address == ctx.user_account@);
            assert(ui as int == ui0);
        }
        let uentry = self.users[ui];
        let pool_entry = match self.pool {
            Some(p) => p,
            None => vstd::pervasive::unreached(),
        };
        if !uentry.record.user_key.eq_key(&ctx.user) {
            return Err(StakeError::IdentityMismatch);
        }
        if !uentry.record.user_token_account_key.eq_key(&ctx.user_token_account) {
            return Err(StakeError::LinkMismatch);
        }
        if !ctx.pool_vault_account.eq_key(&pool_entry.record.pool_vault_account_key) {
            return Err(StakeError::LinkMismatch);
        }
        if ctx.user_token_account.eq_key(&pool_entry.record.pool_vault_account_key) {
            return Err(StakeError::LinkMismatch);
        }
        if uentry.record.staked_amount < unstake_amount {
            return Err(StakeError::InsufficientBalance);
        }
        let authority_seeds = single_seed(vault_authority_seed_bytes());
        let authority = match try_find_program_address(&authority_seeds, &self.program_id) {
            Some((k, _bump)) => k,
            None => {
                return Err(StakeError::CustodyServiceFailure);
            },
        };
        let ti = match find_custody(&self.custody, &ctx.user_token_account) {
            Some(i) => i,
            None => vstd::pervasive::unreached(),
        };
        proof {
            let ti0 = custody_at(m.custody, ctx.user_token_account@);
            assert(0 <= ti0 < m.custody.len() && m.custody[ti0].key == ctx.user_token_account@);
            assert(ti as int == ti0);
            assert(custody_has(m.custody, pool_entry@.record.pool_vault_account_key));
        }
        let token = self.custody[ti];
        let vi = match find_custody(&self.custody, &pool_entry.record.pool_vault_account_key) {
            Some(i) => i,
            None => vstd::pervasive::unreached(),
        };
        proof {
            let vk = pool_entry@.record.pool_vault_account_key;
            let vi0 = custody_at(m.custody, vk);
            assert(0 <= vi0 < m.custody.len() && m.custody[vi0].key == vk);
            assert(vi as int == vi0);
            assert(vi != ti);
            assert(m.custody[vi as int].amount == pool_entry@.record.total_staked_amount);
        }
        let vault = self.custody[vi];
        if !ctx.pool_vault_authority.eq_key(&authority) {
            return Err(StakeError::CustodyServiceFailure);
        }
        if !vault.authority.eq_key(&authority) {
            return Err(StakeError::CustodyServiceFailure);
        }
        if unstake_amount > u64::MAX - token.amount {
            return Err(StakeError::CustodyServiceFailure);
        }
        proof {
            lemma_sum_bounds_element(m.users, ui as int);
        }
        let mut new_user = uentry;
        new_user.record.staked_amount = uentry.record.staked_amount - unstake_amount;
        self.users[ui] = new_user;
        let mut new_pool = pool_entry;
        new_pool.record.total_staked_amount = pool_entry.record.total_staked_amount
            - unstake_amount;
        self.pool = Some(new_pool);
        let mut new_vault = vault;
        new_vault.amount = vault.amount - unstake_amount;
        self.custody[vi] = new_vault;
        let mut new_token = token;
        new_token.amount = token.amount + unstake_amount;
        self.custody[ti] = new_token;
        proof {
            assert(self.users.deep_view() =~= m.users.update(ui as int, new_user@));
            assert(self.custody.deep_view() =~= m.custody.update(vi as int, new_vault@).update(
                ti as int,
                new_token@,
            ));
            assert(Ok::<StakeModel, StakeError>(self@) == spec_unstake(m, ctx@, unstake_amount));
            lemma_sum_update(m.users, ui as int, new_user@);
            let c = self@.custody;
            assert forall|i: int, j: int| 0 <= i < j < c.len() implies c[i].key != c[j].key by {
                assert(c[i].key == m.custody[i].key);
                assert(c[j].key == m.custody[j].key);
            }
            let u = self@.users;
            assert forall|i: int, j: int| 0 <= i < j < u.len() implies u[i].address
                != u[j].address by {
                assert(u[i].address == m.users[i].address);
                assert(u[j].address == m.users[j].address);
            }
            let vk = pool_entry@.record.pool_vault_account_key;
            assert(c[vi as int].key == vk);
            assert(custody_has(c, vk));
            let nvi = custody_at(c, vk);
            assert(0 <= nvi < c.len() && c[nvi].key == vk);
            assert(nvi == vi as int);
            assert(c[nvi].amount == new_pool@.record.total_staked_amount);
            assert(self@.inv());
        }
        Ok(())
    }
}

} // verus!
