//! The calls into other programs that creating a token asks for.

use crate::address::{zero_address, Address};
use anchor_lang::solana_program::pubkey::Pubkey;
use anchor_lang::solana_program::system_instruction;
use vstd::bytes::spec_u64_to_le_bytes;
use vstd::prelude::*;

verus! {

/// One account that an instruction touches.
#[derive(Clone, Copy, Debug, PartialEq, Eq)]
pub struct AccountMeta {
    pub pubkey: Address,
    /// Whether the account has to sign the transaction.
    pub is_signer: bool,
    /// Whether the instruction may change the account.
    pub is_writable: bool,
}

/// What an account entry holds.
pub struct AccountMetaView {
    pub pubkey: Seq<u8>,
    pub is_signer: bool,
    pub is_writable: bool,
}

impl View for AccountMeta {
    type V = AccountMetaView;

    open spec fn view(&self) -> AccountMetaView {
        AccountMetaView {
            pubkey: self.pubkey@,
            is_signer: self.is_signer,
            is_writable: self.is_writable,
        }
    }
}

/// An instruction addressed to another program, ready to be invoked.
#[derive(Clone, Debug, PartialEq, Eq)]
pub struct Instruction {
    /// The program that executes the instruction.
    pub program_id: Address,
    pub accounts: Vec<AccountMeta>,
    /// The instruction as the program reads it.
    pub data: Vec<u8>,
}

/// What an instruction holds.
pub struct InstructionView {
    pub program_id: Seq<u8>,
    pub accounts: Seq<AccountMetaView>,
    pub data: Seq<u8>,
}

impl View for Instruction {
    type V = InstructionView;

    open spec fn view(&self) -> InstructionView {
        InstructionView {
            program_id: self.program_id@,
            accounts: self.accounts@.map_values(|meta: AccountMeta| meta@),
            data: self.data@,
        }
    }
}

/// The system program's instruction that moves `lamports` from `from`, which
/// signs, to `to`: the transfer's number, 2, as four little-endian bytes, and
/// the amount as eight.
pub open spec fn system_transfer_instruction(
    from: Seq<u8>,
    to: Seq<u8>,
    lamports: u64,
) -> InstructionView {
    InstructionView {
        program_id: zero_address(),
        accounts: seq![
            AccountMetaView { pubkey: from, is_signer: true, is_writable: true },
            AccountMetaView { pubkey: to, is_signer: false, is_writable: true },
        ],
        data: seq![2u8, 0u8, 0u8, 0u8] + spec_u64_to_le_bytes(lamports),
    }
}

/// Builds the transfer of `lamports` from `from` to `to` by
/// `anchor_lang::solana_program::system_instruction::transfer`.
///
/// Trusted: that the instruction it builds is addressed to the system
/// program, names `from` as a writable signer and `to` as writable, and
/// carries the twelve bytes of [`system_transfer_instruction`].
#[verifier::external_body]
pub(crate) fn system_transfer(from: &Address, to: &Address, lamports: u64) -> (instruction:
    Instruction)
    ensures
        instruction@ == system_transfer_instruction(from@, to@, lamports),
{
    let (from, to) = (Pubkey::from(from.bytes), Pubkey::from(to.bytes));
    let built = system_instruction::transfer(&from, &to, lamports);
    let entry = |meta: &anchor_lang::solana_program::instruction::AccountMeta| AccountMeta {
        pubkey: Address { bytes: meta.pubkey.to_bytes() },
        is_signer: meta.is_signer,
        is_writable: meta.is_writable,
    };
    Instruction {
        program_id: Address { bytes: built.program_id.to_bytes() },
        accounts: built.accounts.iter().map(entry).collect(),
        data: built.data,
    }
}

/// One call that the host makes on the factory's behalf.
#[derive(Clone, Debug, PartialEq, Eq)]
pub enum Invocation {
    /// Ask the token program `program` to mint `amount` of `mint` to the
    /// token account `to`, signed for by `authority`.
    MintTo { program: Address, mint: Address, to: Address, authority: Address, amount: u64 },
    /// Ask the token program `program` to move `amount` from the token
    /// account `from` to the token account `to`, signed for by `authority`.
    Transfer { program: Address, from: Address, to: Address, authority: Address, amount: u64 },
    /// Invoke a prepared instruction with the accounts that it names.
    Native { instruction: Instruction },
}

/// What an invocation holds.
pub enum InvocationView {
    MintTo { program: Seq<u8>, mint: Seq<u8>, to: Seq<u8>, authority: Seq<u8>, amount: u64 },
    Transfer { program: Seq<u8>, from: Seq<u8>, to: Seq<u8>, authority: Seq<u8>, amount: u64 },
    Native { instruction: InstructionView },
}

impl View for Invocation {
    type V = InvocationView;

    open spec fn view(&self) -> InvocationView {
        match *self {
            Invocation::MintTo { program, mint, to, authority, amount } => InvocationView::MintTo {
                program: program@,
                mint: mint@,
                to: to@,
                authority: authority@,
                amount,
            },
            Invocation::Transfer {
                program,
                from,
                to,
                authority,
                amount,
            } => InvocationView::Transfer {
                program: program@,
                from: from@,
                to: to@,
                authority: authority@,
                amount,
            },
            Invocation::Native { instruction } => InvocationView::Native {
                instruction: instruction@,
            },
        }
    }
}

/// The views of a list of invocations, in order.
pub open spec fn invocation_views(invocations: Seq<Invocation>) -> Seq<InvocationView> {
    invocations.map_values(|invocation: Invocation| invocation@)
}

} // verus!
