use vstd::prelude::*;
use crate::addr::Address;
use crate::pda::derive_index;
use crate::pda::index_pda;
use crate::pda::index_program_id;
use crate::pda::index_program_id_view;
use crate::pda::system_program_id;
use crate::pda::system_program_id_view;

verus! {

// ---------------------------------------------------------------------------
// The index instruction
//
// The on-chain entry point receives five accounts in fixed order — system
// program, authority, multisig, payer, index — and no instruction payload.
// Building the instruction is fixing those five slots and their access
// flags.
// ---------------------------------------------------------------------------

/// One account slot of an instruction: its address and access flags.
pub struct InstructionAccount {
    pub address: Address,
    pub is_signer: bool,
    pub is_writable: bool,
}

pub ghost struct InstructionAccountView {
    pub address: Seq<u8>,
    pub is_signer: bool,
    pub is_writable: bool,
}

impl View for InstructionAccount {
    type V = InstructionAccountView;

    open spec fn view(&self) -> InstructionAccountView {
        InstructionAccountView {
            address: self.address@,
            is_signer: self.is_signer,
            is_writable: self.is_writable,
        }
    }
}

impl DeepView for InstructionAccount {
    type V = InstructionAccountView;

    open spec fn deep_view(&self) -> InstructionAccountView {
        self@
    }
}

/// The instruction as handed to the ledger: the program to run, the account
/// slots in their fixed order, and the (empty) payload.
pub struct IndexInstruction {
    pub program: Address,
    pub accounts: Vec<InstructionAccount>,
    pub data: Vec<u8>,
}

pub ghost struct IndexInstructionView {
    pub program: Seq<u8>,
    pub accounts: Seq<InstructionAccountView>,
    pub data: Seq<u8>,
}

impl View for IndexInstruction {
    type V = IndexInstructionView;

    open spec fn view(&self) -> IndexInstructionView {
        IndexInstructionView {
            program: self.program@,
            accounts: self.accounts.deep_view(),
            data: self.data@,
        }
    }
}

/// The five account slots of the index instruction, in their fixed order.
pub open spec fn index_instruction_accounts(
    authority: Seq<u8>,
    multisig: Seq<u8>,
    payer: Seq<u8>,
    index_address: Seq<u8>,
) -> Seq<InstructionAccountView> {
    seq![
        InstructionAccountView {
            address: system_program_id_view(),
            is_signer: false,
            is_writable: false,
        },
        InstructionAccountView { address: authority, is_signer: false, is_writable: false },
        InstructionAccountView { address: multisig, is_signer: false, is_writable: false },
        InstructionAccountView { address: payer, is_signer: true, is_writable: true },
        InstructionAccountView { address: index_address, is_signer: false, is_writable: true },
    ]
}

/// Builds the instruction that creates the index for `authority`; `None`
/// only when no index address can be derived for it.
pub fn build_index_instruction(authority: &Address, multisig: &Address, payer: &Address) -> (r:
    Option<IndexInstruction>)
    ensures
        r is Some <==> index_pda(authority@) is Some,
        r matches Some(ix) ==> index_pda(authority@) matches Some(p) && ix@.program
            == index_program_id_view() && ix@.accounts == index_instruction_accounts(
            authority@,
            multisig@,
            payer@,
            p.0,
        ) && ix@.data.len() == 0,
{
    let index_address = match derive_index(authority) {
        Some(p) => p.0,
        None => {
            return None;
        },
    };
    let mut accounts: Vec<InstructionAccount> = Vec::new();
    accounts.push(
        InstructionAccount { address: system_program_id(), is_signer: false, is_writable: false },
    );
    accounts.push(InstructionAccount { address: *authority, is_signer: false, is_writable: false });
    accounts.push(InstructionAccount { address: *multisig, is_signer: false, is_writable: false });
    accounts.push(InstructionAccount { address: *payer, is_signer: true, is_writable: true });
    accounts.push(
        InstructionAccount { address: index_address, is_signer: false, is_writable: true },
    );
    let ix = IndexInstruction { program: index_program_id(), accounts, data: Vec::new() };
    proof {
        assert(ix@.accounts =~= index_instruction_accounts(
            authority@,
            multisig@,
            payer@,
            index_address@,
        ));
    }
    Some(ix)
}

} // verus!
