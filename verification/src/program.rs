//! The wrapper's three instructions.
//!
//! Each instruction receives a fixed set of accounts, checks the shape
//! constraints the wrapper imposes on them — mutability, signer-ness,
//! ownership, program identity — and builds the token-program instruction
//! that does the real work.  Forwarding that instruction by cross-program
//! invocation, and everything it then effects (balance accounting, supply
//! tracking, ledger-level authority checks), is the host runtime's and the
//! token program's business.

use vstd::prelude::*;

use crate::accounts::AccountView;
use crate::error::ValidationError;
use crate::ids::key_eq;
use crate::ids::rent_sysvar_id;
use crate::ids::rent_sysvar_key;
use crate::ids::spl_token_program_id;
use crate::ids::system_program_id;
use crate::ids::system_program_key;
use crate::ids::token_program_id;
use crate::instruction::initialize_mint_instruction;
use crate::instruction::instruction_result_view;
use crate::instruction::mint_to_instruction;
use crate::instruction::transfer_instruction;
use crate::instruction::build_initialize_mint;
use crate::instruction::build_mint_to;
use crate::instruction::build_transfer;
use crate::instruction::InstructionModel;
use crate::instruction::InstructionView;

verus! {

/// The decimals every mint initialized through the wrapper gets.
pub const MINT_DECIMALS: u8 = 6;

/// The accounts the mint-initialization instruction receives: the mint
/// being created, its future authority, the payer funding the creation,
/// and the programs and sysvar the creation goes through.
pub struct InitializeMint {
    /// The mint account being created; written to, and a signer, since the
    /// transaction creates it.
    pub mint: AccountView,
    /// The account that will be the mint's authority; nothing is checked
    /// of it.
    pub authority: AccountView,
    /// The account paying for the creation; debited, so writable, and a
    /// signer.
    pub payer: AccountView,
    /// The system program, which creates the account.
    pub system_program: AccountView,
    /// The token program, which initializes the mint.
    pub token_program: AccountView,
    /// The rent sysvar account.
    pub rent: AccountView,
}

/// The accounts the mint-tokens instruction receives.
pub struct MintTokens {
    /// The mint whose supply grows; written to.
    pub mint: AccountView,
    /// The token account receiving the new tokens; written to.
    pub token_account: AccountView,
    /// The mint's authority; must have signed.
    pub authority: AccountView,
    /// The token program, which does the minting.
    pub token_program: AccountView,
}

/// The accounts the transfer-tokens instruction receives.
pub struct TransferTokens {
    /// The token account the tokens leave; written to.
    pub from: AccountView,
    /// The token account the tokens reach; written to.
    pub to: AccountView,
    /// The owner of `from`; must have signed.
    pub authority: AccountView,
    /// The token program, which does the transfer.
    pub token_program: AccountView,
}

impl InitializeMint {
    /// The first constraint these accounts fail, if any, in declaration
    /// order: the mint must be writable and a signer, the payer writable
    /// and a signer, the two programs the expected ones and executable,
    /// and the rent account the rent sysvar.
    pub open spec fn spec_validate(self) -> Result<(), ValidationError> {
        if !self.mint.is_writable {
            Err(ValidationError::NotWritable)
        } else if !self.mint.is_signer {
            Err(ValidationError::NotSigner)
        } else if !self.payer.is_writable {
            Err(ValidationError::NotWritable)
        } else if !self.payer.is_signer {
            Err(ValidationError::NotSigner)
        } else if self.system_program.key@ != system_program_id() {
            Err(ValidationError::IncorrectProgramId)
        } else if !self.system_program.executable {
            Err(ValidationError::NotExecutable)
        } else if self.token_program.key@ != spl_token_program_id() {
            Err(ValidationError::IncorrectProgramId)
        } else if !self.token_program.executable {
            Err(ValidationError::NotExecutable)
        } else if self.rent.key@ != rent_sysvar_id() {
            Err(ValidationError::WrongSysvar)
        } else {
            Ok(())
        }
    }

    /// Whether these accounts meet every constraint of the instruction.
    pub open spec fn valid(self) -> bool {
        self.spec_validate() is Ok
    }

    /// Checks the accounts against the instruction's constraints.
    pub fn validate(&self) -> (r: Result<(), ValidationError>)
        ensures
            r == self.spec_validate(),
    {
        if !self.mint.is_writable {
            return Err(ValidationError::NotWritable);
        }
        if !self.mint.is_signer {
            return Err(ValidationError::NotSigner);
        }
        if !self.payer.is_writable {
            return Err(ValidationError::NotWritable);
        }
        if !self.payer.is_signer {
            return Err(ValidationError::NotSigner);
        }
        let system_id = system_program_key();
        if !key_eq(&self.system_program.key, &system_id) {
            return Err(ValidationError::IncorrectProgramId);
        }
        if !self.system_program.executable {
            return Err(ValidationError::NotExecutable);
        }
        let token_id = token_program_id();
        if !key_eq(&self.token_program.key, &token_id) {
            return Err(ValidationError::IncorrectProgramId);
        }
        if !self.token_program.executable {
            return Err(ValidationError::NotExecutable);
        }
        let rent_id = rent_sysvar_key();
        if !key_eq(&self.rent.key, &rent_id) {
            return Err(ValidationError::WrongSysvar);
        }
        Ok(())
    }
}

impl MintTokens {
    /// The first constraint these accounts fail, if any, in declaration
    /// order: the mint and the token account must be writable and owned by
    /// the token program, the authority must have signed, and the token
    /// program must be the expected one and executable.
    pub open spec fn spec_validate(self) -> Result<(), ValidationError> {
        if !self.mint.is_writable {
            Err(ValidationError::NotWritable)
        } else if self.mint.owner@ != spl_token_program_id() {
            Err(ValidationError::WrongOwner)
        } else if !self.token_account.is_writable {
            Err(ValidationError::NotWritable)
        } else if self.token_account.owner@ != spl_token_program_id() {
            Err(ValidationError::WrongOwner)
        } else if !self.authority.is_signer {
            Err(ValidationError::NotSigner)
        } else if self.token_program.key@ != spl_token_program_id() {
            Err(ValidationError::IncorrectProgramId)
        } else if !self.token_program.executable {
            Err(ValidationError::NotExecutable)
        } else {
            Ok(())
        }
    }

    /// Whether these accounts meet every constraint of the instruction.
    pub open spec fn valid(self) -> bool {
        self.spec_validate() is Ok
    }

    /// Checks the accounts against the instruction's constraints.
    pub fn validate(&self) -> (r: Result<(), ValidationError>)
        ensures
            r == self.spec_validate(),
    {
        let token_id = token_program_id();
        if !self.mint.is_writable {
            return Err(ValidationError::NotWritable);
        }
        if !key_eq(&self.mint.owner, &token_id) {
            return Err(ValidationError::WrongOwner);
        }
        if !self.token_account.is_writable {
            return Err(ValidationError::NotWritable);
        }
        if !key_eq(&self.token_account.owner, &token_id) {
            return Err(ValidationError::WrongOwner);
        }
        if !self.authority.is_signer {
            return Err(ValidationError::NotSigner);
        }
        if !key_eq(&self.token_program.key, &token_id) {
            return Err(ValidationError::IncorrectProgramId);
        }
        if !self.token_program.executable {
            return Err(ValidationError::NotExecutable);
        }
        Ok(())
    }
}

impl TransferTokens {
    /// The first constraint these accounts fail, if any, in declaration
    /// order: the source and destination token accounts must be writable
    /// and owned by the token program, the authority must have signed, and
    /// the token program must be the expected one and executable.
    pub open spec fn spec_validate(self) -> Result<(), ValidationError> {
        if !self.from.is_writable {
            Err(ValidationError::NotWritable)
        } else if self.from.owner@ != spl_token_program_id() {
            Err(ValidationError::WrongOwner)
        } else if !self.to.is_writable {
            Err(ValidationError::NotWritable)
        } else if self.to.owner@ != spl_token_program_id() {
            Err(ValidationError::WrongOwner)
        } else if !self.authority.is_signer {
            Err(ValidationError::NotSigner)
        } else if self.token_program.key@ != spl_token_program_id() {
            Err(ValidationError::IncorrectProgramId)
        } else if !self.token_program.executable {
            Err(ValidationError::NotExecutable)
        } else {
            Ok(())
        }
    }

    /// Whether these accounts meet every constraint of the instruction.
    pub open spec fn valid(self) -> bool {
        self.spec_validate() is Ok
    }

    /// Checks the accounts against the instruction's constraints.
    pub fn validate(&self) -> (r: Result<(), ValidationError>)
        ensures
            r == self.spec_validate(),
    {
        let token_id = token_program_id();
        if !self.from.is_writable {
            return Err(ValidationError::NotWritable);
        }
        if !key_eq(&self.from.owner, &token_id) {
            return Err(ValidationError::WrongOwner);
        }
        if !self.to.is_writable {
            return Err(ValidationError::NotWritable);
        }
        if !key_eq(&self.to.owner, &token_id) {
            return Err(ValidationError::WrongOwner);
        }
        if !self.authority.is_signer {
            return Err(ValidationError::NotSigner);
        }
        if !key_eq(&self.token_program.key, &token_id) {
            return Err(ValidationError::IncorrectProgramId);
        }
        if !self.token_program.executable {
            return Err(ValidationError::NotExecutable);
        }
        Ok(())
    }
}

/// What initializing a mint returns: for valid accounts, the
/// mint-initialization instruction to forward; otherwise the first failed
/// constraint.
pub open spec fn spec_initialize_mint(a: InitializeMint) -> Result<
    InstructionModel,
    ValidationError,
> {
    match a.spec_validate() {
        Ok(u) => Ok(initialize_mint_instruction(a.mint.key@, a.authority.key@, MINT_DECIMALS)),
        Err(e) => Err(e),
    }
}

/// What minting tokens returns: for valid accounts, the mint-to
/// instruction to forward; otherwise the first failed constraint.
pub open spec fn spec_mint_tokens(a: MintTokens, amount: u64) -> Result<
    InstructionModel,
    ValidationError,
> {
    match a.spec_validate() {
        Ok(u) => Ok(
            mint_to_instruction(a.mint.key@, a.token_account.key@, a.authority.key@, amount),
        ),
        Err(e) => Err(e),
    }
}

/// What transferring tokens returns: for valid accounts, the transfer
/// instruction to forward; otherwise the first failed constraint.
pub open spec fn spec_transfer_tokens(a: TransferTokens, amount: u64) -> Result<
    InstructionModel,
    ValidationError,
> {
    match a.spec_validate() {
        Ok(u) => Ok(transfer_instruction(a.from.key@, a.to.key@, a.authority.key@, amount)),
        Err(e) => Err(e),
    }
}

/// Initialize a new mint.
///
/// Checks the accounts' shape constraints and returns the token-program
/// instruction that initializes the mint with [`MINT_DECIMALS`] decimals,
/// the given authority, and no freeze authority.  The caller forwards it;
/// creating and funding the account itself is the system program's and the
/// host runtime's business.
pub fn initialize_mint(accounts: &InitializeMint) -> (r: Result<InstructionView, ValidationError>)
    ensures
        r is Ok <==> accounts.valid(),
        instruction_result_view(r) == spec_initialize_mint(*accounts),
{
    if let Err(e) = accounts.validate() {
        return Err(e);
    }
    let token_id = token_program_id();
    match build_initialize_mint(&token_id, &accounts.mint.key, &accounts.authority.key,
        MINT_DECIMALS) {
        Ok(ix) => Ok(ix),
        Err(e) => Err(e),
    }
}

/// Mint tokens to a token account.
///
/// Checks the accounts' shape constraints and returns the token-program
/// instruction that mints `amount` tokens of the mint to the token
/// account, under the signing authority.  The caller forwards it; whether
/// the authority may mint is the token program's own check.
pub fn mint_tokens(accounts: &MintTokens, amount: u64) -> (r: Result<
    InstructionView,
    ValidationError,
>)
    ensures
        r is Ok <==> accounts.valid(),
        instruction_result_view(r) == spec_mint_tokens(*accounts, amount),
{
    if let Err(e) = accounts.validate() {
        return Err(e);
    }
    let token_id = token_program_id();
    match build_mint_to(&token_id, &accounts.mint.key, &accounts.token_account.key,
        &accounts.authority.key, amount) {
        Ok(ix) => Ok(ix),
        Err(e) => Err(e),
    }
}

/// Transfer tokens between token accounts.
///
/// Checks the accounts' shape constraints and returns the token-program
/// instruction that moves `amount` tokens from the source to the
/// destination account, under the signing authority.  The caller forwards
/// it; balances and ledger-level authority are the token program's own
/// checks.
pub fn transfer_tokens(accounts: &TransferTokens, amount: u64) -> (r: Result<
    InstructionView,
    ValidationError,
>)
    ensures
        r is Ok <==> accounts.valid(),
        instruction_result_view(r) == spec_transfer_tokens(*accounts, amount),
{
    if let Err(e) = accounts.validate() {
        return Err(e);
    }
    let token_id = token_program_id();
    match build_transfer(&token_id, &accounts.from.key, &accounts.to.key,
        &accounts.authority.key, amount) {
        Ok(ix) => Ok(ix),
        Err(e) => Err(e),
    }
}

} // verus!
