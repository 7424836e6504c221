use vstd::prelude::*;
use crate::addr::Address;
use crate::layout::parse_multisig;
use crate::layout::parse_result;
use crate::pda::authority_pda;
use crate::pda::derive_authority;
use crate::pda::derive_program_data;
use crate::pda::is_derivable_authority;
use crate::pda::loader_id;
use crate::pda::loader_id_view;
use crate::pda::on_curve;
use crate::pda::program_data_pda;
use crate::pda::squads_program_id;
use crate::pda::squads_program_id_view;

verus! {

// ---------------------------------------------------------------------------
// Authority resolver
//
// A user-supplied address may be a multisig, a program id, or neither. The
// resolver decides which, following one level of indirection through an
// upgradeable program's data account, and ends with the multisig and its
// derived authority. Every ledger fetch is a suspension point: the resolver
// is a state machine, each non-final state naming the fetch or search the
// caller must perform, and `resolve_step` consuming what came back.
// ---------------------------------------------------------------------------

/// A fetched account: what the ledger reports at an address.
pub struct AccountSnapshot {
    pub owner: Address,
    pub lamports: u64,
    pub data: Vec<u8>,
}

pub ghost struct AccountSnapshotView {
    pub owner: Seq<u8>,
    pub lamports: u64,
    pub data: Seq<u8>,
}

impl View for AccountSnapshot {
    type V = AccountSnapshotView;

    open spec fn view(&self) -> AccountSnapshotView {
        AccountSnapshotView { owner: self.owner@, lamports: self.lamports, data: self.data@ }
    }
}

#[derive(Clone, Copy, PartialEq, Eq, Structural, Debug)]
pub enum ResolveError {
    /// The fetched account does not exist.
    AccountNotFound,
    /// The account is neither a multisig record nor a program pointer.
    InvalidAccount,
    /// The program has no upgrade authority left to index.
    ImmutableProgram,
    /// The upgrade authority is a plain signing key, never indexable.
    AuthorityNotDerivable,
    /// No transaction in the scanned history referenced the multisig.
    MultisigNotFound,
    /// The program-data account is too short to hold an authority.
    MalformedProgramData,
    /// Address derivation found no viable derived address.
    DerivationFailed,
}

pub enum ResolvedTarget {
    /// The input was the multisig itself; its authority was derived.
    DirectAuthority { multisig: Address, authority: Address },
    /// The input was a program id; the multisig was discovered from the
    /// program-data account's history.
    ViaProgram { program: Address, multisig: Address, authority: Address },
}

pub ghost enum ResolvedTargetView {
    DirectAuthority { multisig: Seq<u8>, authority: Seq<u8> },
    ViaProgram { program: Seq<u8>, multisig: Seq<u8>, authority: Seq<u8> },
}

impl View for ResolvedTarget {
    type V = ResolvedTargetView;

    open spec fn view(&self) -> ResolvedTargetView {
        match self {
            ResolvedTarget::DirectAuthority { multisig, authority } => {
                ResolvedTargetView::DirectAuthority { multisig: multisig@, authority: authority@ }
            },
            ResolvedTarget::ViaProgram { program, multisig, authority } => {
                ResolvedTargetView::ViaProgram {
                    program: program@,
                    multisig: multisig@,
                    authority: authority@,
                }
            },
        }
    }
}

pub enum ResolveState {
    /// Fetch the account at `input` and report it.
    AwaitInputAccount { input: Address },
    /// Fetch the account at `program_data` and report it.
    AwaitProgramData { input: Address, program_data: Address },
    /// Scan `program_data`'s history for the multisig whose derived
    /// authority is `authority`, and report the result.
    Discovering { input: Address, program_data: Address, authority: Address },
    /// Resolution ended.
    Done { result: Result<ResolvedTarget, ResolveError> },
}

pub ghost enum ResolveStateView {
    AwaitInputAccount { input: Seq<u8> },
    AwaitProgramData { input: Seq<u8>, program_data: Seq<u8> },
    Discovering { input: Seq<u8>, program_data: Seq<u8>, authority: Seq<u8> },
    Done { result: Result<ResolvedTargetView, ResolveError> },
}

impl View for ResolveState {
    type V = ResolveStateView;

    open spec fn view(&self) -> ResolveStateView {
        match self {
            ResolveState::AwaitInputAccount { input } => {
                ResolveStateView::AwaitInputAccount { input: input@ }
            },
            ResolveState::AwaitProgramData { input, program_data } => {
                ResolveStateView::AwaitProgramData { input: input@, program_data: program_data@ }
            },
            ResolveState::Discovering { input, program_data, authority } => {
                ResolveStateView::Discovering {
                    input: input@,
                    program_data: program_data@,
                    authority: authority@,
                }
            },
            ResolveState::Done { result } => {
                ResolveStateView::Done {
                    result: match result {
                        Ok(t) => Ok(t@),
                        Err(e) => Err(*e),
                    },
                }
            },
        }
    }
}

pub enum ResolveEvent {
    /// What the requested fetch returned; `None` when no account exists.
    AccountFetched { account: Option<AccountSnapshot> },
    /// What the requested discovery scan found.
    DiscoveryFinished { multisig: Option<Address> },
}

pub ghost enum ResolveEventView {
    AccountFetched { account: Option<AccountSnapshotView> },
    DiscoveryFinished { multisig: Option<Seq<u8>> },
}

impl View for ResolveEvent {
    type V = ResolveEventView;

    open spec fn view(&self) -> ResolveEventView {
        match self {
            ResolveEvent::AccountFetched { account } => {
                ResolveEventView::AccountFetched {
                    account: match account {
                        Some(a) => Some(a@),
                        None => None,
                    },
                }
            },
            ResolveEvent::DiscoveryFinished { multisig } => {
                ResolveEventView::DiscoveryFinished {
                    multisig: match multisig {
                        Some(m) => Some(m@),
                        None => None,
                    },
                }
            },
        }
    }
}

/// The event a state awaits; `Done` awaits none.
pub open spec fn resolve_expects(state: ResolveStateView, event: ResolveEventView) -> bool {
    match state {
        ResolveStateView::AwaitInputAccount { .. } => event is AccountFetched,
        ResolveStateView::AwaitProgramData { .. } => event is AccountFetched,
        ResolveStateView::Discovering { .. } => event is DiscoveryFinished,
        ResolveStateView::Done { .. } => false,
    }
}

/// How the resolver advances on one reported fetch or search result.
pub open spec fn resolve_transition(
    state: ResolveStateView,
    event: ResolveEventView,
) -> ResolveStateView {
    match (state, event) {
        (
            ResolveStateView::AwaitInputAccount { input },
            ResolveEventView::AccountFetched { account },
        ) => match account {
            None => ResolveStateView::Done { result: Err(ResolveError::AccountNotFound) },
            Some(a) => if a.owner == squads_program_id_view() {
                if parse_result(a.data) is Ok {
                    match authority_pda(input) {
                        Some(p) => ResolveStateView::Done {
                            result: Ok(
                                ResolvedTargetView::DirectAuthority {
                                    multisig: input,
                                    authority: p.0,
                                },
                            ),
                        },
                        None => ResolveStateView::Done {
                            result: Err(ResolveError::DerivationFailed),
                        },
                    }
                } else {
                    ResolveStateView::Done { result: Err(ResolveError::InvalidAccount) }
                }
            } else if a.owner == loader_id_view() && a.data.len() == 36 {
                match program_data_pda(input) {
                    Some(p) => ResolveStateView::AwaitProgramData { input, program_data: p.0 },
                    None => ResolveStateView::Done { result: Err(ResolveError::DerivationFailed) },
                }
            } else {
                ResolveStateView::Done { result: Err(ResolveError::InvalidAccount) }
            },
        },
        (
            ResolveStateView::AwaitProgramData { input, program_data },
            ResolveEventView::AccountFetched { account },
        ) => match account {
            None => ResolveStateView::Done { result: Err(ResolveError::AccountNotFound) },
            Some(a) => if a.data.len() < 45 {
                ResolveStateView::Done { result: Err(ResolveError::MalformedProgramData) }
            } else if a.data[12] == 0 {
                ResolveStateView::Done { result: Err(ResolveError::ImmutableProgram) }
            } else {
                let authority = a.data.subrange(13, 45);
                if on_curve(authority) {
                    ResolveStateView::Done { result: Err(ResolveError::AuthorityNotDerivable) }
                } else {
                    ResolveStateView::Discovering { input, program_data, authority }
                }
            },
        },
        (
            ResolveStateView::Discovering { input, program_data, authority },
            ResolveEventView::DiscoveryFinished { multisig },
        ) => match multisig {
            Some(m) => ResolveStateView::Done {
                result: Ok(
                    ResolvedTargetView::ViaProgram { program: input, multisig: m, authority },
                ),
            },
            None => ResolveStateView::Done { result: Err(ResolveError::MultisigNotFound) },
        },
        _ => state,
    }
}

/// Begins resolving a user-supplied address.
pub fn resolve_start(input: Address) -> (s: ResolveState)
    ensures
        s@ == (ResolveStateView::AwaitInputAccount { input: input@ }),
{
    ResolveState::AwaitInputAccount { input }
}

/// Advances the resolver by one reported fetch or search result.
pub fn resolve_step(state: ResolveState, event: ResolveEvent) -> (next: ResolveState)
    requires
        resolve_expects(state@, event@),
    ensures
        next@ == resolve_transition(state@, event@),
{
    match (state, event) {
        (
            ResolveState::AwaitInputAccount { input },
            ResolveEvent::AccountFetched { account },
        ) => match account {
            None => ResolveState::Done { result: Err(ResolveError::AccountNotFound) },
            Some(a) => {
                if a.owner.equals(&squads_program_id()) {
                    match parse_multisig(&a.data) {
                        Ok(_) => match derive_authority(&input) {
                            Some(p) => ResolveState::Done {
                                result: Ok(
                                    ResolvedTarget::DirectAuthority {
                                        multisig: input,
                                        authority: p.0,
                                    },
                                ),
                            },
                            None => ResolveState::Done {
                                result: Err(ResolveError::DerivationFailed),
                            },
                        },
                        Err(_) => ResolveState::Done { result: Err(ResolveError::InvalidAccount) },
                    }
                } else if a.owner.equals(&loader_id()) && a.data.len() == 36 {
                    match derive_program_data(&input) {
                        Some(p) => ResolveState::AwaitProgramData {
                            input,
                            program_data: p.0,
                        },
                        None => ResolveState::Done { result: Err(ResolveError::DerivationFailed) },
                    }
                } else {
                    ResolveState::Done { result: Err(ResolveError::InvalidAccount) }
                }
            },
        },
        (
            ResolveState::AwaitProgramData { input, program_data },
            ResolveEvent::AccountFetched { account },
        ) => match account {
            None => ResolveState::Done { result: Err(ResolveError::AccountNotFound) },
            Some(a) => {
                if a.data.len() < 45 {
                    ResolveState::Done { result: Err(ResolveError::MalformedProgramData) }
                } else if a.data[12] == 0 {
                    ResolveState::Done { result: Err(ResolveError::ImmutableProgram) }
                } else {
                    let authority = Address::from_slice(a.data.as_slice(), 13);
                    if !is_derivable_authority(&authority) {
                        ResolveState::Done { result: Err(ResolveError::AuthorityNotDerivable) }
                    } else {
                        ResolveState::Discovering { input, program_data, authority }
                    }
                }
            },
        },
        (
            ResolveState::Discovering { input, program_data, authority },
            ResolveEvent::DiscoveryFinished { multisig },
        ) => match multisig {
            Some(m) => ResolveState::Done {
                result: Ok(
                    ResolvedTarget::ViaProgram { program: input, multisig: m, authority },
                ),
            },
            None => ResolveState::Done { result: Err(ResolveError::MultisigNotFound) },
        },
        (s, _) => s,
    }
}

} // verus!
