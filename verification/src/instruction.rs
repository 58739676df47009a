//! The instruction that the wrapper forwards to the token program.
//!
//! An instruction names the program to call, the accounts it touches, and
//! the operation's bytes.  The wrapper never assembles those bytes itself:
//! the token interface crate builds each instruction, behind a trusted
//! wrapper whose contract states, from that crate's source, exactly what
//! comes back.

use vstd::bytes::spec_u64_to_le_bytes;
use vstd::prelude::*;

use crate::error::ValidationError;
use crate::ids::spl_token_program_id;

verus! {

/// One account an instruction touches, with its transaction-level flags.
#[derive(Clone, Copy, Debug, PartialEq, Eq)]
pub struct AccountMetaView {
    /// The account's address.
    pub key: [u8; 32],
    /// Whether the account must sign the transaction.
    pub is_signer: bool,
    /// Whether the instruction may write to the account.
    pub is_writable: bool,
}

/// An instruction for the host runtime to execute: the program to call,
/// the accounts it touches, and the operation's bytes.
#[derive(Clone, Debug, PartialEq, Eq)]
pub struct InstructionView {
    /// The id of the program that executes the instruction.
    pub program_id: [u8; 32],
    /// The accounts the instruction touches, in order.
    pub accounts: Vec<AccountMetaView>,
    /// The operation, encoded as the called program reads it.
    pub data: Vec<u8>,
}

/// The mathematical value of an [`AccountMetaView`].
pub ghost struct MetaModel {
    /// The account's address.
    pub key: Seq<u8>,
    /// Whether the account must sign the transaction.
    pub is_signer: bool,
    /// Whether the instruction may write to the account.
    pub is_writable: bool,
}

/// The mathematical value of an [`InstructionView`].
pub ghost struct InstructionModel {
    /// The id of the program that executes the instruction.
    pub program_id: Seq<u8>,
    /// The accounts the instruction touches, in order.
    pub accounts: Seq<MetaModel>,
    /// The operation, encoded as the called program reads it.
    pub data: Seq<u8>,
}

impl View for AccountMetaView {
    type V = MetaModel;

    open spec fn view(&self) -> MetaModel {
        MetaModel { key: self.key@, is_signer: self.is_signer, is_writable: self.is_writable }
    }
}

impl View for InstructionView {
    type V = InstructionModel;

    open spec fn view(&self) -> InstructionModel {
        InstructionModel {
            program_id: self.program_id@,
            accounts: self.accounts@.map_values(|m: AccountMetaView| m@),
            data: self.data@,
        }
    }
}

/// A built instruction, or why none could be built.
pub open spec fn instruction_result_view(r: Result<InstructionView, ValidationError>) -> Result<
    InstructionModel,
    ValidationError,
> {
    match r {
        Ok(ix) => Ok(ix@),
        Err(e) => Err(e),
    }
}

/// The bytes of a mint-to operation: its tag, then the amount little-endian.
pub open spec fn mint_to_data(amount: u64) -> Seq<u8> {
    seq![7u8] + spec_u64_to_le_bytes(amount)
}

/// The bytes of a transfer operation: its tag, then the amount little-endian.
pub open spec fn transfer_data(amount: u64) -> Seq<u8> {
    seq![3u8] + spec_u64_to_le_bytes(amount)
}

/// The bytes of a mint-initialization operation: its tag, the decimals, the
/// mint authority's address, and a final zero byte for "no freeze authority".
pub open spec fn initialize_mint_data(decimals: u8, mint_authority: Seq<u8>) -> Seq<u8> {
    seq![20u8, decimals] + mint_authority + seq![0u8]
}

/// The token-program instruction that mints `amount` tokens of `mint` to
/// `account`, with `owner` as the sole signing mint authority.
pub open spec fn mint_to_instruction(
    mint: Seq<u8>,
    account: Seq<u8>,
    owner: Seq<u8>,
    amount: u64,
) -> InstructionModel {
    InstructionModel {
        program_id: spl_token_program_id(),
        accounts: seq![
            MetaModel { key: mint, is_signer: false, is_writable: true },
            MetaModel { key: account, is_signer: false, is_writable: true },
            MetaModel { key: owner, is_signer: true, is_writable: false },
        ],
        data: mint_to_data(amount),
    }
}

/// The token-program instruction that transfers `amount` tokens from
/// `source` to `destination`, with `authority` as the sole signing owner.
pub open spec fn transfer_instruction(
    source: Seq<u8>,
    destination: Seq<u8>,
    authority: Seq<u8>,
    amount: u64,
) -> InstructionModel {
    InstructionModel {
        program_id: spl_token_program_id(),
        accounts: seq![
            MetaModel { key: source, is_signer: false, is_writable: true },
            MetaModel { key: destination, is_signer: false, is_writable: true },
            MetaModel { key: authority, is_signer: true, is_writable: false },
        ],
        data: transfer_data(amount),
    }
}

/// The token-program instruction that initializes `mint` with the given
/// decimals, `mint_authority` as its minting authority, and no freeze
/// authority.
pub open spec fn initialize_mint_instruction(
    mint: Seq<u8>,
    mint_authority: Seq<u8>,
    decimals: u8,
) -> InstructionModel {
    InstructionModel {
        program_id: spl_token_program_id(),
        accounts: seq![MetaModel { key: mint, is_signer: false, is_writable: true }],
        data: initialize_mint_data(decimals, mint_authority),
    }
}

/// Relies on the token interface crate's `instruction::mint_to`: it rejects
/// every program id but the token program's, and otherwise returns the
/// mint-to instruction with the mint and destination account writable, the
/// owner as sole signer, and the tagged little-endian amount as data.
#[verifier::external_body]
pub(crate) fn build_mint_to(
    token_program: &[u8; 32],
    mint: &[u8; 32],
    account: &[u8; 32],
    owner: &[u8; 32],
    amount: u64,
) -> (r: Result<InstructionView, ValidationError>)
    ensures
        r is Ok <==> token_program@ == spl_token_program_id(),
        r is Ok ==> r->Ok_0@ == mint_to_instruction(mint@, account@, owner@, amount),
        r is Err ==> r->Err_0 == ValidationError::IncorrectProgramId,
{
    let k = |b: &[u8; 32]| solana_pubkey::Pubkey::new_from_array(*b);
    let built = anchor_spl::token::spl_token::instruction::mint_to(
        &k(token_program), &k(mint), &k(account), &k(owner), &[], amount,
    );
    match built {
        Ok(ix) => Ok(InstructionView {
            program_id: ix.program_id.to_bytes(),
            accounts: ix.accounts.iter().map(|m| (AccountMetaView {
                key: m.pubkey.to_bytes(), is_signer: m.is_signer, is_writable: m.is_writable,
            })).collect(),
            data: ix.data,
        }),
        Err(_) => Err(ValidationError::IncorrectProgramId),
    }
}

/// Relies on the token interface crate's `instruction::transfer`: it rejects
/// every program id but the token program's, and otherwise returns the
/// transfer instruction with the source and destination writable, the
/// authority as sole signer, and the tagged little-endian amount as data.
#[verifier::external_body]
pub(crate) fn build_transfer(
    token_program: &[u8; 32],
    source: &[u8; 32],
    destination: &[u8; 32],
    authority: &[u8; 32],
    amount: u64,
) -> (r: Result<InstructionView, ValidationError>)
    ensures
        r is Ok <==> token_program@ == spl_token_program_id(),
        r is Ok ==> r->Ok_0@ == transfer_instruction(source@, destination@, authority@, amount),
        r is Err ==> r->Err_0 == ValidationError::IncorrectProgramId,
{
    let k = |b: &[u8; 32]| solana_pubkey::Pubkey::new_from_array(*b);
    let built = anchor_spl::token::spl_token::instruction::transfer(
        &k(token_program), &k(source), &k(destination), &k(authority), &[], amount,
    );
    match built {
        Ok(ix) => Ok(InstructionView {
            program_id: ix.program_id.to_bytes(),
            accounts: ix.accounts.iter().map(|m| (AccountMetaView {
                key: m.pubkey.to_bytes(), is_signer: m.is_signer, is_writable: m.is_writable,
            })).collect(),
            data: ix.data,
        }),
        Err(_) => Err(ValidationError::IncorrectProgramId),
    }
}

/// Relies on the token interface crate's `instruction::initialize_mint2`: it
/// rejects every program id but the token program's, and otherwise returns
/// the mint-initialization instruction with the mint as its one, writable,
/// non-signing account, and the tag, decimals, mint authority and a zero
/// "no freeze authority" byte as data.
#[verifier::external_body]
pub(crate) fn build_initialize_mint(
    token_program: &[u8; 32],
    mint: &[u8; 32],
    mint_authority: &[u8; 32],
    decimals: u8,
) -> (r: Result<InstructionView, ValidationError>)
    ensures
        r is Ok <==> token_program@ == spl_token_program_id(),
        r is Ok ==> r->Ok_0@ == initialize_mint_instruction(mint@, mint_authority@, decimals),
        r is Err ==> r->Err_0 == ValidationError::IncorrectProgramId,
{
    let k = |b: &[u8; 32]| solana_pubkey::Pubkey::new_from_array(*b);
    let built = anchor_spl::token::spl_token::instruction::initialize_mint2(
        &k(token_program), &k(mint), &k(mint_authority), None, decimals,
    );
    match built {
        Ok(ix) => Ok(InstructionView {
            program_id: ix.program_id.to_bytes(),
            accounts: ix.accounts.iter().map(|m| (AccountMetaView {
                key: m.pubkey.to_bytes(), is_signer: m.is_signer, is_writable: m.is_writable,
            })).collect(),
            data: ix.data,
        }),
        Err(_) => Err(ValidationError::IncorrectProgramId),
    }
}

} // verus!
