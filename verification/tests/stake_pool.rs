//! End-to-end tests of the staking state machine, run against the real
//! address-derivation routines.

use simple_stake::accounts::{CreateUserAccount, CustodyAccount, Initialize, Stake, Unstake};
use simple_stake::errors::StakeError;
use simple_stake::key::Key;
use simple_stake::state::StakeState;
use solana_pubkey::Pubkey;

fn key(b: u8) -> Key {
    Key::new([b; 32])
}

fn pda(seeds: &[&[u8]], pid: &Key) -> (Key, u8) {
    let p = Pubkey::new_from_array(pid.bytes);
    let (a, bump) = Pubkey::find_program_address(seeds, &p);
    (Key::new(a.to_bytes()), bump)
}

struct Setup {
    state: StakeState,
    pid: Key,
    mint: Key,
    vault: Key,
    vault_bump: u8,
    pool_addr: Key,
    pool_bump: u8,
    initializer: Key,
}

fn fresh() -> Setup {
    let pid = key(9);
    let initializer = key(10);
    let mint = key(11);
    let (vault, vault_bump) = pda(&[b"pool_vault_account"], &pid);
    let (pool_addr, pool_bump) = pda(&[b"pool_shared_account"], &pid);
    let state = StakeState::new(pid);
    Setup { state, pid, mint, vault, vault_bump, pool_addr, pool_bump, initializer }
}

fn init_pool(s: &mut Setup) {
    let ctx = Initialize {
        initializer: s.initializer,
        mint: s.mint,
        pool_vault_account: s.vault,
        pool_shared_account: s.pool_addr,
    };
    s.state.initialize(&ctx, s.vault_bump, s.pool_bump).unwrap();
}

/// Register a participant: open their token account with the given balance
/// and create their user record.  Returns the record's address.
fn register(s: &mut Setup, user: Key, token: Key, balance: u64) -> Key {
    s.state
        .open_custody_account(CustodyAccount {
            key: token,
            mint: s.mint,
            authority: user,
            amount: balance,
        })
        .unwrap();
    register_record_only(s, user, token)
}

/// Create the user record alone (the token account must already exist or be
/// someone else's).
fn register_record_only(s: &mut Setup, user: Key, token: Key) -> Key {
    let (rec, bump) = pda(&[&user.bytes], &s.pid);
    let ctx = CreateUserAccount { user, user_account: rec, user_token_account: token };
    s.state.create_user_account(&ctx, bump).unwrap();
    rec
}

fn custody_amount(s: &Setup, k: &Key) -> u64 {
    s.state.custody.iter().find(|c| c.key.bytes == k.bytes).unwrap().amount
}

fn staked_of(s: &Setup, rec: &Key) -> u64 {
    s.state.users.iter().find(|u| u.address.bytes == rec.bytes).unwrap().record.staked_amount
}

fn total_of(s: &Setup) -> u64 {
    s.state.pool.as_ref().unwrap().record.total_staked_amount
}

fn stake_ctx(s: &Setup, user: Key, rec: Key, token: Key) -> Stake {
    Stake {
        user,
        user_account: rec,
        user_token_account: token,
        pool_vault_account: s.vault,
        pool_shared_account: s.pool_addr,
    }
}

fn unstake_ctx(s: &Setup, user: Key, rec: Key, token: Key, authority: Key) -> Unstake {
    Unstake {
        user,
        user_account: rec,
        user_token_account: token,
        pool_vault_account: s.vault,
        pool_vault_authority: authority,
        pool_shared_account: s.pool_addr,
    }
}

fn do_stake(s: &mut Setup, user: Key, rec: Key, token: Key, amount: u64) -> Result<(), StakeError> {
    let ctx = stake_ctx(s, user, rec, token);
    s.state.stake(&ctx, amount)
}

fn do_unstake(
    s: &mut Setup,
    user: Key,
    rec: Key,
    token: Key,
    authority: Key,
    amount: u64,
) -> Result<(), StakeError> {
    let ctx = unstake_ctx(s, user, rec, token, authority);
    s.state.unstake(&ctx, amount)
}

fn vault_authority(s: &Setup) -> Key {
    pda(&[b"simple_stake"], &s.pid).0
}

#[test]
fn initialize_sets_pool_record() {
    let mut s = fresh();
    init_pool(&mut s);
    let pool = s.state.pool.as_ref().unwrap();
    assert_eq!(pool.address.bytes, s.pool_addr.bytes);
    assert_eq!(pool.record.initializer_key.bytes, s.initializer.bytes);
    assert_eq!(pool.record.pool_vault_account_key.bytes, s.vault.bytes);
    assert_eq!(pool.record.total_staked_amount, 0);
    // The vault was created empty, bound to the mint, and its authority was
    // reassigned to the derived vault authority, not to any signer.
    let vault = s.state.custody.iter().find(|c| c.key.bytes == s.vault.bytes).unwrap();
    assert_eq!(vault.amount, 0);
    assert_eq!(vault.mint.bytes, s.mint.bytes);
    assert_eq!(vault.authority.bytes, vault_authority(&s).bytes);
    assert_ne!(vault.authority.bytes, s.initializer.bytes);
}

#[test]
fn initialize_twice_fails_and_preserves_state() {
    let mut s = fresh();
    init_pool(&mut s);
    let user = key(1);
    let token = key(2);
    let rec = register(&mut s, user, token, 500);
    do_stake(&mut s, user, rec, token, 120).unwrap();
    let ctx = Initialize {
        initializer: key(77),
        mint: s.mint,
        pool_vault_account: s.vault,
        pool_shared_account: s.pool_addr,
    };
    let r = s.state.initialize(&ctx, s.vault_bump, s.pool_bump);
    assert_eq!(r, Err(StakeError::AccountAlreadyInitialized));
    // The first call's state is preserved.
    let pool = s.state.pool.as_ref().unwrap();
    assert_eq!(pool.record.initializer_key.bytes, s.initializer.bytes);
    assert_eq!(pool.record.total_staked_amount, 120);
    assert_eq!(custody_amount(&s, &s.vault), 120);
}

#[test]
fn initialize_wrong_bump_fails() {
    let mut s = fresh();
    let ctx = Initialize {
        initializer: s.initializer,
        mint: s.mint,
        pool_vault_account: s.vault,
        pool_shared_account: s.pool_addr,
    };
    let r = s.state.initialize(&ctx, s.vault_bump.wrapping_sub(1), s.pool_bump);
    assert_eq!(r, Err(StakeError::BumpMismatch));
    assert!(s.state.pool.is_none());
    assert!(s.state.custody.is_empty());
}

#[test]
fn register_user_starts_at_zero() {
    let mut s = fresh();
    init_pool(&mut s);
    let user = key(1);
    let token = key(2);
    let rec = register(&mut s, user, token, 500);
    let entry = s.state.users.iter().find(|u| u.address.bytes == rec.bytes).unwrap();
    assert_eq!(entry.record.user_key.bytes, user.bytes);
    assert_eq!(entry.record.user_token_account_key.bytes, token.bytes);
    assert_eq!(entry.record.staked_amount, 0);
    assert_eq!(entry.record.bump, pda(&[&user.bytes], &s.pid).1);
}

#[test]
fn register_twice_fails() {
    let mut s = fresh();
    init_pool(&mut s);
    let user = key(1);
    let token = key(2);
    let rec = register(&mut s, user, token, 500);
    let (rec2, bump) = pda(&[&user.bytes], &s.pid);
    assert_eq!(rec.bytes, rec2.bytes);
    let ctx = CreateUserAccount { user, user_account: rec2, user_token_account: token };
    assert_eq!(
        s.state.create_user_account(&ctx, bump),
        Err(StakeError::AccountAlreadyInitialized)
    );
    assert_eq!(s.state.users.len(), 1);
}

#[test]
fn register_wrong_bump_fails() {
    let mut s = fresh();
    init_pool(&mut s);
    let user = key(1);
    let (rec, bump) = pda(&[&user.bytes], &s.pid);
    let ctx = CreateUserAccount { user, user_account: rec, user_token_account: key(2) };
    assert_eq!(
        s.state.create_user_account(&ctx, bump.wrapping_sub(1)),
        Err(StakeError::BumpMismatch)
    );
    assert!(s.state.users.is_empty());
}

#[test]
fn stake_then_unstake_moves_balances() {
    let mut s = fresh();
    init_pool(&mut s);
    let user = key(1);
    let token = key(2);
    let rec = register(&mut s, user, token, 500);
    do_stake(&mut s, user, rec, token, 100).unwrap();
    assert_eq!(staked_of(&s, &rec), 100);
    assert_eq!(total_of(&s), 100);
    assert_eq!(custody_amount(&s, &s.vault), 100);
    assert_eq!(custody_amount(&s, &token), 400);
    let auth = vault_authority(&s);
    do_unstake(&mut s, user, rec, token, auth, 40).unwrap();
    assert_eq!(staked_of(&s, &rec), 60);
    assert_eq!(total_of(&s), 60);
    assert_eq!(custody_amount(&s, &s.vault), 60);
    assert_eq!(custody_amount(&s, &token), 440);
}

#[test]
fn stake_beyond_token_balance_changes_nothing() {
    let mut s = fresh();
    init_pool(&mut s);
    let user = key(1);
    let token = key(2);
    let rec = register(&mut s, user, token, 80);
    do_stake(&mut s, user, rec, token, 30).unwrap();
    let r = do_stake(&mut s, user, rec, token, 51);
    assert_eq!(r, Err(StakeError::InsufficientBalance));
    assert_eq!(staked_of(&s, &rec), 30);
    assert_eq!(total_of(&s), 30);
    assert_eq!(custody_amount(&s, &s.vault), 30);
    assert_eq!(custody_amount(&s, &token), 50);
}

#[test]
fn unstake_beyond_staked_changes_nothing() {
    let mut s = fresh();
    init_pool(&mut s);
    let user = key(1);
    let token = key(2);
    let rec = register(&mut s, user, token, 500);
    do_stake(&mut s, user, rec, token, 100).unwrap();
    let auth = vault_authority(&s);
    let r = do_unstake(&mut s, user, rec, token, auth, 101);
    assert_eq!(r, Err(StakeError::InsufficientBalance));
    assert_eq!(staked_of(&s, &rec), 100);
    assert_eq!(total_of(&s), 100);
    assert_eq!(custody_amount(&s, &s.vault), 100);
    assert_eq!(custody_amount(&s, &token), 400);
}

#[test]
fn two_stakes_independent_of_order() {
    let run = |first_is_u1: bool| -> (u64, u64, u64, u64) {
        let mut s = fresh();
        init_pool(&mut s);
        let u1 = key(1);
        let t1 = key(2);
        let r1 = register(&mut s, u1, t1, 500);
        let u2 = key(3);
        let t2 = key(4);
        let r2 = register(&mut s, u2, t2, 500);
        let c1 = stake_ctx(&s, u1, r1, t1);
        let c2 = stake_ctx(&s, u2, r2, t2);
        if first_is_u1 {
            s.state.stake(&c1, 50).unwrap();
            s.state.stake(&c2, 70).unwrap();
        } else {
            s.state.stake(&c2, 70).unwrap();
            s.state.stake(&c1, 50).unwrap();
        }
        (total_of(&s), staked_of(&s, &r1), staked_of(&s, &r2), custody_amount(&s, &s.vault))
    };
    let a = run(true);
    let b = run(false);
    assert_eq!(a, (120, 50, 70, 120));
    assert_eq!(b, (120, 50, 70, 120));
}

#[test]
fn unstake_with_unlinked_token_account_fails() {
    let mut s = fresh();
    init_pool(&mut s);
    let user = key(1);
    let token = key(2);
    let rec = register(&mut s, user, token, 500);
    let other = key(3);
    let other_token = key(4);
    let other_rec = register(&mut s, other, other_token, 500);
    do_stake(&mut s, user, rec, token, 100).unwrap();
    let auth = vault_authority(&s);
    // The record links `token`, but the transaction supplies `other_token`.
    let r = do_unstake(&mut s, user, rec, other_token, auth, 10);
    assert_eq!(r, Err(StakeError::LinkMismatch));
    assert_eq!(staked_of(&s, &rec), 100);
    assert_eq!(staked_of(&s, &other_rec), 0);
    assert_eq!(total_of(&s), 100);
    assert_eq!(custody_amount(&s, &s.vault), 100);
    assert_eq!(custody_amount(&s, &token), 400);
    assert_eq!(custody_amount(&s, &other_token), 500);
}

#[test]
fn stake_by_wrong_signer_fails() {
    let mut s = fresh();
    init_pool(&mut s);
    let user = key(1);
    let token = key(2);
    let rec = register(&mut s, user, token, 500);
    let intruder = key(3);
    let ctx = Stake {
        user: intruder,
        user_account: rec,
        user_token_account: token,
        pool_vault_account: s.vault,
        pool_shared_account: s.pool_addr,
    };
    assert_eq!(s.state.stake(&ctx, 10), Err(StakeError::IdentityMismatch));
    assert_eq!(total_of(&s), 0);
}

#[test]
fn stake_into_foreign_vault_fails() {
    let mut s = fresh();
    init_pool(&mut s);
    let user = key(1);
    let token = key(2);
    let rec = register(&mut s, user, token, 500);
    let decoy = key(5);
    s.state
        .open_custody_account(CustodyAccount {
            key: decoy,
            mint: s.mint,
            authority: user,
            amount: 0,
        })
        .unwrap();
    let ctx = Stake {
        user,
        user_account: rec,
        user_token_account: token,
        pool_vault_account: decoy,
        pool_shared_account: s.pool_addr,
    };
    assert_eq!(s.state.stake(&ctx, 10), Err(StakeError::LinkMismatch));
    assert_eq!(total_of(&s), 0);
    assert_eq!(custody_amount(&s, &decoy), 0);
}

#[test]
fn stake_from_unowned_token_account_fails() {
    let mut s = fresh();
    init_pool(&mut s);
    let user = key(1);
    let token = key(2);
    // The token account exists but its authority is someone else.
    s.state
        .open_custody_account(CustodyAccount {
            key: token,
            mint: s.mint,
            authority: key(3),
            amount: 500,
        })
        .unwrap();
    let rec = register_record_only(&mut s, user, token);
    let r = do_stake(&mut s, user, rec, token, 10);
    assert_eq!(r, Err(StakeError::CustodyServiceFailure));
    assert_eq!(total_of(&s), 0);
    assert_eq!(custody_amount(&s, &token), 500);
}

#[test]
fn stake_overflowing_pool_total_fails() {
    let mut s = fresh();
    init_pool(&mut s);
    let u1 = key(1);
    let t1 = key(2);
    let r1 = register(&mut s, u1, t1, u64::MAX);
    do_stake(&mut s, u1, r1, t1, u64::MAX).unwrap();
    assert_eq!(total_of(&s), u64::MAX);
    let u2 = key(3);
    let t2 = key(4);
    let r2 = register(&mut s, u2, t2, 10);
    let r = do_stake(&mut s, u2, r2, t2, 10);
    assert_eq!(r, Err(StakeError::ArithmeticOverflow));
    assert_eq!(total_of(&s), u64::MAX);
    assert_eq!(staked_of(&s, &r2), 0);
    assert_eq!(custody_amount(&s, &t2), 10);
}

#[test]
fn unstake_with_wrong_authority_fails() {
    let mut s = fresh();
    init_pool(&mut s);
    let user = key(1);
    let token = key(2);
    let rec = register(&mut s, user, token, 500);
    do_stake(&mut s, user, rec, token, 100).unwrap();
    // Presenting anything but the derived vault authority is rejected.
    let r = do_unstake(&mut s, user, rec, token, key(6), 10);
    assert_eq!(r, Err(StakeError::CustodyServiceFailure));
    assert_eq!(total_of(&s), 100);
    assert_eq!(custody_amount(&s, &s.vault), 100);
}

#[test]
fn stake_from_the_vault_itself_fails() {
    let mut s = fresh();
    init_pool(&mut s);
    let user = key(1);
    let vault = s.vault;
    // A record whose token link is the vault can never move vault funds.
    let rec = register_record_only(&mut s, user, vault);
    let r = do_stake(&mut s, user, rec, vault, 0);
    assert_eq!(r, Err(StakeError::LinkMismatch));
    assert_eq!(total_of(&s), 0);
    assert_eq!(custody_amount(&s, &s.vault), 0);
}

#[test]
fn zero_amount_stake_is_a_permitted_noop() {
    let mut s = fresh();
    init_pool(&mut s);
    let user = key(1);
    let token = key(2);
    let rec = register(&mut s, user, token, 500);
    do_stake(&mut s, user, rec, token, 0).unwrap();
    assert_eq!(staked_of(&s, &rec), 0);
    assert_eq!(total_of(&s), 0);
    assert_eq!(custody_amount(&s, &s.vault), 0);
    assert_eq!(custody_amount(&s, &token), 500);
}

#[test]
fn open_custody_account_rejects_taken_address() {
    let mut s = fresh();
    init_pool(&mut s);
    let token = key(2);
    s.state
        .open_custody_account(CustodyAccount {
            key: token,
            mint: s.mint,
            authority: key(1),
            amount: 5,
        })
        .unwrap();
    let r = s.state.open_custody_account(CustodyAccount {
        key: token,
        mint: s.mint,
        authority: key(3),
        amount: 7,
    });
    assert_eq!(r, Err(StakeError::AccountAlreadyInitialized));
    assert_eq!(custody_amount(&s, &token), 5);
}

#[test]
fn error_descriptions_name_each_failure() {
    assert_eq!(
        StakeError::AccountAlreadyInitialized.describe(),
        "account already initialized"
    );
    assert_ne!(
        StakeError::InsufficientBalance.describe(),
        StakeError::LinkMismatch.describe()
    );
}

#[test]
fn aggregate_equals_ledger_sum_and_vault_balance() {
    let mut s = fresh();
    init_pool(&mut s);
    let u1 = key(1);
    let t1 = key(2);
    let r1 = register(&mut s, u1, t1, 300);
    let u2 = key(3);
    let t2 = key(4);
    let r2 = register(&mut s, u2, t2, 300);
    do_stake(&mut s, u1, r1, t1, 120).unwrap();
    do_stake(&mut s, u2, r2, t2, 45).unwrap();
    let auth = vault_authority(&s);
    do_unstake(&mut s, u1, r1, t1, auth, 20).unwrap();
    let ledger_sum: u64 = s.state.users.iter().map(|u| u.record.staked_amount).sum();
    assert_eq!(total_of(&s), ledger_sum);
    assert_eq!(total_of(&s), custody_amount(&s, &s.vault));
    assert_eq!(total_of(&s), 145);
}

#[test]
fn unstake_by_wrong_signer_fails() {
    let mut s = fresh();
    init_pool(&mut s);
    let user = key(1);
    let token = key(2);
    let rec = register(&mut s, user, token, 500);
    do_stake(&mut s, user, rec, token, 100).unwrap();
    let auth = vault_authority(&s);
    let r = do_unstake(&mut s, key(3), rec, token, auth, 10);
    assert_eq!(r, Err(StakeError::IdentityMismatch));
    assert_eq!(total_of(&s), 100);
    assert_eq!(staked_of(&s, &rec), 100);
}
