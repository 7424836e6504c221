use vstd::prelude::*;
use crate::addr::Address;
use crate::pda::index_pda;
use crate::pda::index_program_id;
use crate::pda::index_program_id_view;
use crate::pda::is_derivable_authority;
use crate::pda::derive_index;
use crate::pda::derive_program_data;
use crate::pda::loader_id;
use crate::pda::loader_id_view;
use crate::pda::on_curve;
use crate::pda::program_data_pda;
use crate::resolve::AccountSnapshot;
use crate::resolve::AccountSnapshotView;
use crate::resolve::ResolveError;

verus! {

// ---------------------------------------------------------------------------
// Indexed-status check
//
// Given an address — an authority, or a program id to follow one level of
// indirection through its program-data account — the check reports whether
// the derived index account exists and is owned by the index program. An
// authority that is a plain signing key is reported not derivable at once:
// no index address is derived or looked up for it.
// ---------------------------------------------------------------------------

pub enum CheckOutcome {
    /// The authority is a plain signing key; nothing was looked up for it.
    NotDerivable { authority: Address },
    /// No index account exists for the authority, or it is owned elsewhere.
    NotIndexed { authority: Address },
    /// The index account exists and is owned by the index program.
    Indexed { authority: Address, index_address: Address, program: Option<Address> },
    /// The check could not finish.
    Failed { error: ResolveError },
}

pub ghost enum CheckOutcomeView {
    NotDerivable { authority: Seq<u8> },
    NotIndexed { authority: Seq<u8> },
    Indexed { authority: Seq<u8>, index_address: Seq<u8>, program: Option<Seq<u8>> },
    Failed { error: ResolveError },
}

impl View for CheckOutcome {
    type V = CheckOutcomeView;

    open spec fn view(&self) -> CheckOutcomeView {
        match self {
            CheckOutcome::NotDerivable { authority } => {
                CheckOutcomeView::NotDerivable { authority: authority@ }
            },
            CheckOutcome::NotIndexed { authority } => {
                CheckOutcomeView::NotIndexed { authority: authority@ }
            },
            CheckOutcome::Indexed { authority, index_address, program } => {
                CheckOutcomeView::Indexed {
                    authority: authority@,
                    index_address: index_address@,
                    program: match program {
                        Some(p) => Some(p@),
                        None => None,
                    },
                }
            },
            CheckOutcome::Failed { error } => CheckOutcomeView::Failed { error: *error },
        }
    }
}

pub enum CheckState {
    /// Fetch the account at `input` and report it.
    AwaitInputAccount { input: Address },
    /// Fetch the account at `program_data` and report it.
    AwaitProgramData { input: Address, program_data: Address },
    /// Fetch the account at `index_address` and report it.
    AwaitIndexAccount { authority: Address, index_address: Address, program: Option<Address> },
    /// The check ended.
    Done { outcome: CheckOutcome },
}

pub ghost enum CheckStateView {
    AwaitInputAccount { input: Seq<u8> },
    AwaitProgramData { input: Seq<u8>, program_data: Seq<u8> },
    AwaitIndexAccount { authority: Seq<u8>, index_address: Seq<u8>, program: Option<Seq<u8>> },
    Done { outcome: CheckOutcomeView },
}

impl View for CheckState {
    type V = CheckStateView;

    open spec fn view(&self) -> CheckStateView {
        match self {
            CheckState::AwaitInputAccount { input } => {
                CheckStateView::AwaitInputAccount { input: input@ }
            },
            CheckState::AwaitProgramData { input, program_data } => {
                CheckStateView::AwaitProgramData { input: input@, program_data: program_data@ }
            },
            CheckState::AwaitIndexAccount { authority, index_address, program } => {
                CheckStateView::AwaitIndexAccount {
                    authority: authority@,
                    index_address: index_address@,
                    program: match program {
                        Some(p) => Some(p@),
                        None => None,
                    },
                }
            },
            CheckState::Done { outcome } => CheckStateView::Done { outcome: outcome@ },
        }
    }
}

/// Whether the authority is worth looking up, and where: a signing key is
/// reported not derivable with no index lookup; otherwise the check moves on
/// to the derived index address.
pub open spec fn check_authority_step(
    authority: Seq<u8>,
    program: Option<Seq<u8>>,
) -> CheckStateView {
    if on_curve(authority) {
        CheckStateView::Done { outcome: CheckOutcomeView::NotDerivable { authority } }
    } else {
        match index_pda(authority) {
            Some(p) => CheckStateView::AwaitIndexAccount {
                authority,
                index_address: p.0,
                program,
            },
            None => CheckStateView::Done {
                outcome: CheckOutcomeView::Failed { error: ResolveError::DerivationFailed },
            },
        }
    }
}

/// How the check advances on one reported fetch.
pub open spec fn check_transition(
    state: CheckStateView,
    account: Option<AccountSnapshotView>,
) -> CheckStateView {
    match state {
        CheckStateView::AwaitInputAccount { input } => match account {
            Some(a) => if a.owner == loader_id_view() && a.data.len() == 36 {
                match program_data_pda(input) {
                    Some(p) => CheckStateView::AwaitProgramData { input, program_data: p.0 },
                    None => CheckStateView::Done {
                        outcome: CheckOutcomeView::Failed {
                            error: ResolveError::DerivationFailed,
                        },
                    },
                }
            } else {
                check_authority_step(input, None)
            },
            None => check_authority_step(input, None),
        },
        CheckStateView::AwaitProgramData { input, program_data } => match account {
            None => CheckStateView::Done {
                outcome: CheckOutcomeView::Failed { error: ResolveError::AccountNotFound },
            },
            Some(a) => if a.data.len() < 45 {
                CheckStateView::Done {
                    outcome: CheckOutcomeView::Failed {
                        error: ResolveError::MalformedProgramData,
                    },
                }
            } else {
                check_authority_step(a.data.subrange(13, 45), Some(input))
            },
        },
        CheckStateView::AwaitIndexAccount { authority, index_address, program } => match account {
            Some(a) => if a.owner == index_program_id_view() {
                CheckStateView::Done {
                    outcome: CheckOutcomeView::Indexed { authority, index_address, program },
                }
            } else {
                CheckStateView::Done { outcome: CheckOutcomeView::NotIndexed { authority } }
            },
            None => CheckStateView::Done {
                outcome: CheckOutcomeView::NotIndexed { authority },
            },
        },
        CheckStateView::Done { .. } => state,
    }
}

/// Begins checking an address.
pub fn check_start(input: Address) -> (s: CheckState)
    ensures
        s@ == (CheckStateView::AwaitInputAccount { input: input@ }),
{
    CheckState::AwaitInputAccount { input }
}

/// Advances the check by one reported fetch.
pub fn check_step(state: CheckState, account: Option<AccountSnapshot>) -> (next: CheckState)
    requires
        !(state@ is Done),
    ensures
        next@ == check_transition(
            state@,
            match account {
                Some(a) => Some(a@),
                None => None::<AccountSnapshotView>,
            },
        ),
{
    match (state, account) {
        (CheckState::AwaitInputAccount { input }, account) => {
            let is_program_pointer = match &account {
                Some(a) => a.owner.equals(&loader_id()) && a.data.len() == 36,
                None => false,
            };
            if is_program_pointer {
                match derive_program_data(&input) {
                    Some(p) => CheckState::AwaitProgramData { input, program_data: p.0 },
                    None => CheckState::Done {
                        outcome: CheckOutcome::Failed { error: ResolveError::DerivationFailed },
                    },
                }
            } else {
                authority_step(input, None)
            }
        },
        (CheckState::AwaitProgramData { input, program_data }, account) => match account {
            None => CheckState::Done {
                outcome: CheckOutcome::Failed { error: ResolveError::AccountNotFound },
            },
            Some(a) => {
                if a.data.len() < 45 {
                    CheckState::Done {
                        outcome: CheckOutcome::Failed {
                            error: ResolveError::MalformedProgramData,
                        },
                    }
                } else {
                    let authority = Address::from_slice(a.data.as_slice(), 13);
                    authority_step(authority, Some(input))
                }
            },
        },
        (CheckState::AwaitIndexAccount { authority, index_address, program }, account) => {
            let owned_by_index_program = match &account {
                Some(a) => a.owner.equals(&index_program_id()),
                None => false,
            };
            if owned_by_index_program {
                CheckState::Done {
                    outcome: CheckOutcome::Indexed { authority, index_address, program },
                }
            } else {
                CheckState::Done { outcome: CheckOutcome::NotIndexed { authority } }
            }
        },
        (s, _) => s,
    }
}

/// Decides where an authority leads: straight to "not derivable" for a
/// signing key — with no index lookup — or to the derived index account.
fn authority_step(authority: Address, program: Option<Address>) -> (next: CheckState)
    ensures
        next@ == check_authority_step(
            authority@,
            match program {
                Some(p) => Some(p@),
                None => None::<Seq<u8>>,
            },
        ),
{
    if !is_derivable_authority(&authority) {
        CheckState::Done { outcome: CheckOutcome::NotDerivable { authority } }
    } else {
        match derive_index(&authority) {
            Some(p) => CheckState::AwaitIndexAccount {
                authority,
                index_address: p.0,
                program,
            },
            None => CheckState::Done {
                outcome: CheckOutcome::Failed { error: ResolveError::DerivationFailed },
            },
        }
    }
}

} // verus!
