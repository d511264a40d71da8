//! The records the staking core keeps, and the account bundles each
//! operation receives.
//!
//! `PoolSharedAccount` and `UserAccount` are the two persisted record
//! layouts.  The `Initialize`, `CreateUserAccount`, `Stake` and `Unstake`
//! structs mirror the account lists of the four instructions: the runtime
//! hands each operation the addresses of the accounts the transaction named,
//! with the signer's identity already authenticated.

use vstd::prelude::*;

use crate::key::Key;

verus! {

/// The one record per pool: aggregate state of the staking facility.
#[derive(Clone, Copy, Debug)]
pub struct PoolSharedAccount {
    /// Identity of the account that created the pool; immutable after creation.
    pub initializer_key: Key,
    /// Address of the custody account holding all deposited tokens; immutable.
    pub pool_vault_account_key: Key,
    /// Sum of all outstanding deposits across every user record.
    pub total_staked_amount: u64,
}

/// The one record per participant: their staked balance and links.
#[derive(Clone, Copy, Debug)]
pub struct UserAccount {
    /// The participant's identity; immutable once set.
    pub user_key: Key,
    /// The participant's own token account, source and sink of their
    /// transfers; immutable once set.
    pub user_token_account_key: Key,
    /// Balance owed to this participant.
    pub staked_amount: u64,
    /// The nonce that re-derives this record's own address from the owner's
    /// identity.
    pub bump: u8,
}

/// A token account of the custody service, as the core models it: a named
/// balance with the token class it is bound to and the identity that may
/// authorize outbound transfers.
#[derive(Clone, Copy, Debug)]
pub struct CustodyAccount {
    /// The account's own address.
    pub key: Key,
    /// The token class the balance is denominated in.
    pub mint: Key,
    /// The sole identity that can authorize transfers out of this account.
    pub authority: Key,
    /// The balance held.
    pub amount: u64,
}

/// A pool record together with the address of the slot it lives in.
#[derive(Clone, Copy, Debug)]
pub struct PoolEntry {
    /// The address of the pool record's storage slot.
    pub address: Key,
    /// The record itself.
    pub record: PoolSharedAccount,
}

/// A user record together with the address of the slot it lives in.
#[derive(Clone, Copy, Debug)]
pub struct UserEntry {
    /// The address of the user record's storage slot (a derived address of
    /// the owner's identity).
    pub address: Key,
    /// The record itself.
    pub record: UserAccount,
}

/// The mathematical view of a `PoolSharedAccount`: keys as byte sequences.
pub struct PoolSharedAccountView {
    /// Identity of the pool's creator.
    pub initializer_key: Seq<u8>,
    /// Address of the vault custody account.
    pub pool_vault_account_key: Seq<u8>,
    /// Sum of all outstanding deposits.
    pub total_staked_amount: u64,
}

impl View for PoolSharedAccount {
    type V = PoolSharedAccountView;

    open spec fn view(&self) -> PoolSharedAccountView {
        PoolSharedAccountView {
            initializer_key: self.initializer_key@,
            pool_vault_account_key: self.pool_vault_account_key@,
            total_staked_amount: self.total_staked_amount,
        }
    }
}

/// The mathematical view of a `UserAccount`.
pub struct UserAccountView {
    /// The participant's identity.
    pub user_key: Seq<u8>,
    /// The participant's token account address.
    pub user_token_account_key: Seq<u8>,
    /// Balance owed to the participant.
    pub staked_amount: u64,
    /// The stored derivation nonce.
    pub bump: u8,
}

impl View for UserAccount {
    type V = UserAccountView;

    open spec fn view(&self) -> UserAccountView {
        UserAccountView {
            user_key: self.user_key@,
            user_token_account_key: self.user_token_account_key@,
            staked_amount: self.staked_amount,
            bump: self.bump,
        }
    }
}

/// The mathematical view of a `CustodyAccount`.
pub struct CustodyAccountView {
    /// The account's own address.
    pub key: Seq<u8>,
    /// The token class.
    pub mint: Seq<u8>,
    /// The transfer authority.
    pub authority: Seq<u8>,
    /// The balance held.
    pub amount: u64,
}

impl View for CustodyAccount {
    type V = CustodyAccountView;

    open spec fn view(&self) -> CustodyAccountView {
        CustodyAccountView {
            key: self.key@,
            mint: self.mint@,
            authority: self.authority@,
            amount: self.amount,
        }
    }
}

impl DeepView for CustodyAccount {
    type V = CustodyAccountView;

    open spec fn deep_view(&self) -> CustodyAccountView {
        self.view()
    }
}

/// The mathematical view of a `PoolEntry`.
pub struct PoolEntryView {
    /// The slot address.
    pub address: Seq<u8>,
    /// The record.
    pub record: PoolSharedAccountView,
}

impl View for PoolEntry {
    type V = PoolEntryView;

    open spec fn view(&self) -> PoolEntryView {
        PoolEntryView { address: self.address@, record: self.record@ }
    }
}

/// The mathematical view of a `UserEntry`.
pub struct UserEntryView {
    /// The slot address.
    pub address: Seq<u8>,
    /// The record.
    pub record: UserAccountView,
}

impl View for UserEntry {
    type V = UserEntryView;

    open spec fn view(&self) -> UserEntryView {
        UserEntryView { address: self.address@, record: self.record@ }
    }
}

impl DeepView for UserEntry {
    type V = UserEntryView;

    open spec fn deep_view(&self) -> UserEntryView {
        self.view()
    }
}

/// Accounts named by an `initialize` transaction.
#[derive(Clone, Copy, Debug)]
pub struct Initialize {
    /// The pool creator; authenticated as the transaction signer.
    pub initializer: Key,
    /// The token class the pool custodies.
    pub mint: Key,
    /// The freshly allocated vault custody account.
    pub pool_vault_account: Key,
    /// The freshly allocated slot for the pool record.
    pub pool_shared_account: Key,
}

/// Accounts named by a `create_user_account` transaction.
#[derive(Clone, Copy, Debug)]
pub struct CreateUserAccount {
    /// The participant registering; authenticated as the transaction signer.
    pub user: Key,
    /// The freshly allocated slot for the user record; must be the derived
    /// address of the participant's identity.
    pub user_account: Key,
    /// The participant's own token account.
    pub user_token_account: Key,
}

/// Accounts named by a `stake` transaction.
#[derive(Clone, Copy, Debug)]
pub struct Stake {
    /// The participant staking; authenticated as the transaction signer.
    pub user: Key,
    /// The participant's user record slot.
    pub user_account: Key,
    /// The participant's own token account.
    pub user_token_account: Key,
    /// The pool's vault custody account.
    pub pool_vault_account: Key,
    /// The pool record slot.
    pub pool_shared_account: Key,
}

/// Accounts named by an `unstake` transaction.
#[derive(Clone, Copy, Debug)]
pub struct Unstake {
    /// The participant unstaking; authenticated as the transaction signer.
    pub user: Key,
    /// The participant's user record slot.
    pub user_account: Key,
    /// The participant's own token account.
    pub user_token_account: Key,
    /// The pool's vault custody account.
    pub pool_vault_account: Key,
    /// The derived vault authority the transaction presents.
    pub pool_vault_authority: Key,
    /// The pool record slot.
    pub pool_shared_account: Key,
}

/// The mathematical view of an `Initialize` account bundle.
pub struct InitializeView {
    /// The pool creator's identity.
    pub initializer: Seq<u8>,
    /// The token class.
    pub mint: Seq<u8>,
    /// The vault custody account address.
    pub pool_vault_account: Seq<u8>,
    /// The pool record slot address.
    pub pool_shared_account: Seq<u8>,
}

impl View for Initialize {
    type V = InitializeView;

    open spec fn view(&self) -> InitializeView {
        InitializeView {
            initializer: self.initializer@,
            mint: self.mint@,
            pool_vault_account: self.pool_vault_account@,
            pool_shared_account: self.pool_shared_account@,
        }
    }
}

/// The mathematical view of a `CreateUserAccount` account bundle.
pub struct CreateUserAccountView {
    /// The registrant's identity.
    pub user: Seq<u8>,
    /// The user record slot address.
    pub user_account: Seq<u8>,
    /// The registrant's token account address.
    pub user_token_account: Seq<u8>,
}

impl View for CreateUserAccount {
    type V = CreateUserAccountView;

    open spec fn view(&self) -> CreateUserAccountView {
        CreateUserAccountView {
            user: self.user@,
            user_account: self.user_account@,
            user_token_account: self.user_token_account@,
        }
    }
}

/// The mathematical view of a `Stake` account bundle.
pub struct StakeView {
    /// The staker's identity.
    pub user: Seq<u8>,
    /// The user record slot address.
    pub user_account: Seq<u8>,
    /// The staker's token account address.
    pub user_token_account: Seq<u8>,
    /// The vault custody account address.
    pub pool_vault_account: Seq<u8>,
    /// The pool record slot address.
    pub pool_shared_account: Seq<u8>,
}

impl View for Stake {
    type V = StakeView;

    open spec fn view(&self) -> StakeView {
        StakeView {
            user: self.user@,
            user_account: self.user_account@,
            user_token_account: self.user_token_account@,
            pool_vault_account: self.pool_vault_account@,
            pool_shared_account: self.pool_shared_account@,
        }
    }
}

/// The mathematical view of an `Unstake` account bundle.
pub struct UnstakeView {
    /// The unstaker's identity.
    pub user: Seq<u8>,
    /// The user record slot address.
    pub user_account: Seq<u8>,
    /// The unstaker's token account address.
    pub user_token_account: Seq<u8>,
    /// The vault custody account address.
    pub pool_vault_account: Seq<u8>,
    /// The presented vault authority address.
    pub pool_vault_authority: Seq<u8>,
    /// The pool record slot address.
    pub pool_shared_account: Seq<u8>,
}

impl View for Unstake {
    type V = UnstakeView;

    open spec fn view(&self) -> UnstakeView {
        UnstakeView {
            user: self.user@,
            user_account: self.user_account@,
            user_token_account: self.user_token_account@,
            pool_vault_account: self.pool_vault_account@,
            pool_vault_authority: self.pool_vault_authority@,
            pool_shared_account: self.pool_shared_account@,
        }
    }
}

} // verus!
