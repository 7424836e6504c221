use vstd::prelude::*;
use crate::addr::Address;
use crate::layout::has_discriminator;
use crate::layout::matches_discriminator;
use crate::pda::authority_pda;
use crate::pda::derive_authority;
use crate::pda::derive_index;
use crate::pda::index_pda;
use crate::pda::index_program_id;
use crate::pda::index_program_id_view;
use crate::pda::squads_program_id;
use crate::pda::squads_program_id_view;
use crate::pda::system_program_id;
use crate::pda::system_program_id_view;

verus! {

// ---------------------------------------------------------------------------
// Index state machine
//
// The on-chain instruction receives five accounts in fixed order — system
// program, authority, multisig, payer, index — validates each against the
// derived and owned constraints, and idempotently brings the index account
// from non-existent to funded, allocated and assigned. Ledger state is
// modelled as plain account records; the instruction is the transition
// function on them.
// ---------------------------------------------------------------------------

/// One ledger account as the instruction sees it.
pub struct AccountState {
    pub key: Address,
    pub owner: Address,
    pub lamports: u64,
    pub data: Vec<u8>,
    pub is_signer: bool,
    pub is_writable: bool,
}

pub ghost struct AccountStateView {
    pub key: Seq<u8>,
    pub owner: Seq<u8>,
    pub lamports: u64,
    pub data: Seq<u8>,
    pub is_signer: bool,
    pub is_writable: bool,
}

impl View for AccountState {
    type V = AccountStateView;

    open spec fn view(&self) -> AccountStateView {
        AccountStateView {
            key: self.key@,
            owner: self.owner@,
            lamports: self.lamports,
            data: self.data@,
            is_signer: self.is_signer,
            is_writable: self.is_writable,
        }
    }
}

/// The fixed minimum balance that keeps the index account alive.
pub const MIN_INDEX_BALANCE: u64 = 890880;

#[derive(Clone, Copy, PartialEq, Eq, Structural, Debug)]
pub enum IndexError {
    /// The first account is not the system program.
    InvalidSystemProgram,
    /// The payer is not a writable signer.
    InvalidPayer,
    /// No index address could be derived for the authority.
    DerivationFailed,
    /// The index account is not the derived index address, or not writable.
    InvalidIndexAccount,
    /// The multisig account is not owned by the multisig program.
    IllegalMultisigOwner,
    /// The authority is not the one derived from the multisig.
    InvalidAuthority,
    /// The multisig account's bytes do not begin with the record tag.
    DiscriminatorMismatch,
    /// The payer cannot cover the required balance.
    InsufficientPayerBalance,
}

#[derive(Clone, Copy, PartialEq, Eq, Structural, Debug)]
pub enum IndexOutcome {
    /// The index account was created afresh with the minimum balance.
    Created,
    /// The account existed unassigned; it was topped up by `topped_up`,
    /// allocated empty and assigned to the index program.
    Funded { topped_up: u64 },
    /// The index already existed; nothing was changed or charged.
    AlreadyIndexed,
}

/// The validations, in their fixed order; each failure is terminal.
pub open spec fn index_checks(
    sys: AccountStateView,
    authority: AccountStateView,
    multisig: AccountStateView,
    payer: AccountStateView,
    index: AccountStateView,
) -> Result<(), IndexError> {
    if sys.key != system_program_id_view() {
        Err(IndexError::InvalidSystemProgram)
    } else if !(payer.is_signer && payer.is_writable) {
        Err(IndexError::InvalidPayer)
    } else {
        match index_pda(authority.key) {
            None => Err(IndexError::DerivationFailed),
            Some(p) => if !(index.key == p.0 && index.is_writable) {
                Err(IndexError::InvalidIndexAccount)
            } else if multisig.owner != squads_program_id_view() {
                Err(IndexError::IllegalMultisigOwner)
            } else {
                match authority_pda(multisig.key) {
                    None => Err(IndexError::DerivationFailed),
                    Some(q) => if authority.key != q.0 {
                        Err(IndexError::InvalidAuthority)
                    } else if !has_discriminator(multisig.data) {
                        Err(IndexError::DiscriminatorMismatch)
                    } else {
                        Ok(())
                    },
                }
            },
        }
    }
}

/// An index account that already carries the marker: it has data, or a prior
/// run already assigned it to the index program.
pub open spec fn already_indexed(index: AccountStateView) -> bool {
    index.data.len() > 0 || index.owner == index_program_id_view()
}

/// What a successful run leaves behind.
pub ghost struct IndexEffect {
    pub outcome: IndexOutcome,
    pub payer_lamports: u64,
    pub index: AccountStateView,
}

/// The whole transition: validations, then the idempotent create-or-fund
/// step on the index account.
pub open spec fn index_transition(
    sys: AccountStateView,
    authority: AccountStateView,
    multisig: AccountStateView,
    payer: AccountStateView,
    index: AccountStateView,
) -> Result<IndexEffect, IndexError> {
    match index_checks(sys, authority, multisig, payer, index) {
        Err(e) => Err(e),
        Ok(()) => if already_indexed(index) {
            Ok(
                IndexEffect {
                    outcome: IndexOutcome::AlreadyIndexed,
                    payer_lamports: payer.lamports,
                    index,
                },
            )
        } else if index.lamports == 0 {
            if payer.lamports < MIN_INDEX_BALANCE {
                Err(IndexError::InsufficientPayerBalance)
            } else {
                Ok(
                    IndexEffect {
                        outcome: IndexOutcome::Created,
                        payer_lamports: (payer.lamports - MIN_INDEX_BALANCE) as u64,
                        index: AccountStateView {
                            owner: index_program_id_view(),
                            lamports: MIN_INDEX_BALANCE,
                            ..index
                        },
                    },
                )
            }
        } else {
            let shortfall = if index.lamports < MIN_INDEX_BALANCE {
                (MIN_INDEX_BALANCE - index.lamports) as u64
            } else {
                0u64
            };
            if payer.lamports < shortfall {
                Err(IndexError::InsufficientPayerBalance)
            } else {
                Ok(
                    IndexEffect {
                        outcome: IndexOutcome::Funded { topped_up: shortfall },
                        payer_lamports: (payer.lamports - shortfall) as u64,
                        index: AccountStateView {
                            owner: index_program_id_view(),
                            lamports: (index.lamports + shortfall) as u64,
                            ..index
                        },
                    },
                )
            }
        },
    }
}

/// Runs the instruction on the five accounts, mutating the payer's balance
/// and the index account exactly as the transition prescribes; on any error
/// nothing changes.
pub fn process_instruction(
    system_program: &AccountState,
    authority: &AccountState,
    multisig: &AccountState,
    payer: &mut AccountState,
    index: &mut AccountState,
) -> (r: Result<IndexOutcome, IndexError>)
    ensures
        r matches Ok(outcome) ==> index_transition(
            system_program@,
            authority@,
            multisig@,
            old(payer)@,
            old(index)@,
        ) == Ok::<IndexEffect, IndexError>(
            IndexEffect {
                outcome,
                payer_lamports: final(payer)@.lamports,
                index: final(index)@,
            },
        ) && final(payer)@ == (AccountStateView {
            lamports: final(payer)@.lamports,
            ..old(payer)@
        }),
        r matches Err(e) ==> index_transition(
            system_program@,
            authority@,
            multisig@,
            old(payer)@,
            old(index)@,
        ) == Err::<IndexEffect, IndexError>(e) && final(payer)@ == old(payer)@ && final(index)@
            == old(index)@,
{
    if !system_program.key.equals(&system_program_id()) {
        return Err(IndexError::InvalidSystemProgram);
    }
    if !(payer.is_signer && payer.is_writable) {
        return Err(IndexError::InvalidPayer);
    }
    let index_key = match derive_index(&authority.key) {
        Some(p) => p.0,
        None => {
            return Err(IndexError::DerivationFailed);
        },
    };
    if !(index.key.equals(&index_key) && index.is_writable) {
        return Err(IndexError::InvalidIndexAccount);
    }
    if !multisig.owner.equals(&squads_program_id()) {
        return Err(IndexError::IllegalMultisigOwner);
    }
    let derived_authority = match derive_authority(&multisig.key) {
        Some(q) => q.0,
        None => {
            return Err(IndexError::DerivationFailed);
        },
    };
    if !authority.key.equals(&derived_authority) {
        return Err(IndexError::InvalidAuthority);
    }
    if multisig.data.len() < 8 || !matches_discriminator(&multisig.data) {
        return Err(IndexError::DiscriminatorMismatch);
    }
    if index.data.len() > 0 || index.owner.equals(&index_program_id()) {
        return Ok(IndexOutcome::AlreadyIndexed);
    }
    if index.lamports == 0 {
        if payer.lamports < MIN_INDEX_BALANCE {
            return Err(IndexError::InsufficientPayerBalance);
        }
        payer.lamports = payer.lamports - MIN_INDEX_BALANCE;
        index.owner = index_program_id();
        index.lamports = MIN_INDEX_BALANCE;
        return Ok(IndexOutcome::Created);
    }
    let shortfall: u64 = if index.lamports < MIN_INDEX_BALANCE {
        MIN_INDEX_BALANCE - index.lamports
    } else {
        0
    };
    if payer.lamports < shortfall {
        return Err(IndexError::InsufficientPayerBalance);
    }
    payer.lamports = payer.lamports - shortfall;
    index.owner = index_program_id();
    index.lamports = index.lamports + shortfall;
    Ok(IndexOutcome::Funded { topped_up: shortfall })
}

// ---------------------------------------------------------------------------
// Idempotence and monotonicity
// ---------------------------------------------------------------------------

/// Any success leaves the index account owned by the index program, with
/// empty data and at least the minimum balance.
pub proof fn lemma_index_success_postcondition(
    sys: AccountStateView,
    authority: AccountStateView,
    multisig: AccountStateView,
    payer: AccountStateView,
    index: AccountStateView,
)
    requires
        index_transition(sys, authority, multisig, payer, index) is Ok,
        !already_indexed(index),
    ensures
        ({
            let eff = index_transition(sys, authority, multisig, payer, index)->Ok_0;
            eff.index.owner == index_program_id_view() && eff.index.data.len() == 0
                && eff.index.lamports >= MIN_INDEX_BALANCE
        }),
{
}

/// Idempotence: running the instruction again on the very accounts a
/// successful run produced reports "already indexed" and changes nothing —
/// no second charge, no error.
pub proof fn lemma_index_idempotent(
    sys: AccountStateView,
    authority: AccountStateView,
    multisig: AccountStateView,
    payer: AccountStateView,
    index: AccountStateView,
)
    requires
        index_transition(sys, authority, multisig, payer, index) is Ok,
    ensures
        ({
            let eff = index_transition(sys, authority, multisig, payer, index)->Ok_0;
            let payer2 = AccountStateView { lamports: eff.payer_lamports, ..payer };
            index_transition(sys, authority, multisig, payer2, eff.index) == Ok::<
                IndexEffect,
                IndexError,
            >(
                IndexEffect {
                    outcome: IndexOutcome::AlreadyIndexed,
                    payer_lamports: eff.payer_lamports,
                    index: eff.index,
                },
            )
        }),
{
}

/// Monotonicity: once the index account is owned by the index program,
/// no run of this instruction changes it or charges anyone again.
pub proof fn lemma_index_monotonic(
    sys: AccountStateView,
    authority: AccountStateView,
    multisig: AccountStateView,
    payer: AccountStateView,
    index: AccountStateView,
)
    requires
        index.owner == index_program_id_view(),
    ensures
        match index_transition(sys, authority, multisig, payer, index) {
            Ok(eff) => eff.index == index && eff.payer_lamports == payer.lamports && eff.outcome
                == IndexOutcome::AlreadyIndexed,
            Err(_) => true,
        },
{
}

} // verus!
