//! Custom error definitions for the escrow program.
use solana_program::program_error::ProgramError;
use vstd::prelude::*;

verus! {

/// Every failure the program can report. Declaration order fixes each kind's
/// code on the wire and must never change once codes are observed.
#[derive(Debug, Clone, Copy, PartialEq, Eq, Structural)]
pub enum EscrowError {
    InvalidInstruction,
    NotRentExempt,
    ExpectedAmountMismatch,
    AmountOverflow,
}

/// How many kinds the taxonomy declares.
pub const KIND_COUNT: u32 = 4;

/// The position of a kind in declaration order.
pub open spec fn ordinal(e: EscrowError) -> nat {
    match e {
        EscrowError::InvalidInstruction => 0,
        EscrowError::NotRentExempt => 1,
        EscrowError::ExpectedAmountMismatch => 2,
        EscrowError::AmountOverflow => 3,
    }
}

/// The kind declared at a position, if the position is in range.
pub open spec fn kind_at(code: nat) -> Option<EscrowError> {
    if code == 0 {
        Some(EscrowError::InvalidInstruction)
    } else if code == 1 {
        Some(EscrowError::NotRentExempt)
    } else if code == 2 {
        Some(EscrowError::ExpectedAmountMismatch)
    } else if code == 3 {
        Some(EscrowError::AmountOverflow)
    } else {
        None
    }
}

/// The diagnostic label of a kind: its name.
pub open spec fn label_of(e: EscrowError) -> Seq<char> {
    match e {
        EscrowError::InvalidInstruction => "InvalidInstruction"@,
        EscrowError::NotRentExempt => "NotRentExempt"@,
        EscrowError::ExpectedAmountMismatch => "ExpectedAmountMismatch"@,
        EscrowError::AmountOverflow => "AmountOverflow"@,
    }
}

impl EscrowError {
    /// The fixed diagnostic label of this kind.
    pub fn label(&self) -> (r: &'static str)
        ensures
            r@ == label_of(*self),
    {
        match self {
            EscrowError::InvalidInstruction => "InvalidInstruction",
            EscrowError::NotRentExempt => "NotRentExempt",
            EscrowError::ExpectedAmountMismatch => "ExpectedAmountMismatch",
            EscrowError::AmountOverflow => "AmountOverflow",
        }
    }

    /// The code the host runtime carries for this kind: its ordinal.
    pub fn to_host_code(self) -> (r: u32)
        ensures
            r as nat == ordinal(self),
            r < KIND_COUNT,
    {
        match self {
            EscrowError::InvalidInstruction => 0,
            EscrowError::NotRentExempt => 1,
            EscrowError::ExpectedAmountMismatch => 2,
            EscrowError::AmountOverflow => 3,
        }
    }

    /// The kind whose code is `code`, or `None` when no kind has it.
    pub fn from_host_code(code: u32) -> (r: Option<EscrowError>)
        ensures
            r == kind_at(code as nat),
            r.is_none() <==> code >= KIND_COUNT,
            r matches Some(e) ==> ordinal(e) == code as nat,
    {
        if code == 0 {
            Some(EscrowError::InvalidInstruction)
        } else if code == 1 {
            Some(EscrowError::NotRentExempt)
        } else if code == 2 {
            Some(EscrowError::ExpectedAmountMismatch)
        } else if code == 3 {
            Some(EscrowError::AmountOverflow)
        } else {
            None
        }
    }
}

/// Decoding the code of any kind gives that kind back.
pub proof fn lemma_round_trip(e: EscrowError)
    ensures
        kind_at(ordinal(e)) == Some(e),
{
}

/// No two distinct kinds share a code.
pub proof fn lemma_codes_distinct(a: EscrowError, b: EscrowError)
    ensures
        a != b ==> ordinal(a) != ordinal(b),
{
}

/// Every code at or past the number of kinds decodes to nothing, and every
/// code below it decodes to the kind with that code.
pub proof fn lemma_decode_range(code: nat)
    ensures
        code >= KIND_COUNT ==> kind_at(code).is_none(),
        code < KIND_COUNT ==> (kind_at(code) matches Some(e) && ordinal(e) == code),
{
}

/// Every label is non-empty, and no two kinds share one.
pub proof fn lemma_labels_distinct(a: EscrowError, b: EscrowError)
    ensures
        label_of(a).len() > 0,
        a != b ==> label_of(a) != label_of(b),
{
    reveal_strlit("InvalidInstruction");
    reveal_strlit("NotRentExempt");
    reveal_strlit("ExpectedAmountMismatch");
    reveal_strlit("AmountOverflow");
    assert("InvalidInstruction"@[0] != "NotRentExempt"@[0]);
    assert("InvalidInstruction"@[0] != "ExpectedAmountMismatch"@[0]);
    assert("InvalidInstruction"@[0] != "AmountOverflow"@[0]);
    assert("NotRentExempt"@[0] != "ExpectedAmountMismatch"@[0]);
    assert("NotRentExempt"@[0] != "AmountOverflow"@[0]);
    assert("ExpectedAmountMismatch"@[0] != "AmountOverflow"@[0]);
}

#[verifier::external_type_specification]
#[verifier::external_body]
pub struct ExProgramError(ProgramError);

/// The host runtime's error that carries a program-defined code.
pub uninterp spec fn custom_error_of(code: u32) -> ProgramError;

/// Relies on solana_program's `ProgramError::Custom`, the runtime's variant for a
/// program-defined code: a plain enum variant, so the same code always gives the
/// same error.
#[verifier::external_body]
fn custom_error(code: u32) -> (r: ProgramError)
    ensures
        r == custom_error_of(code),
{
    ProgramError::Custom(code)
}

impl From<EscrowError> for ProgramError {
    /// The host runtime's custom error carrying the kind's code.
    fn from(e: EscrowError) -> (r: ProgramError)
        ensures
            r == custom_error_of(ordinal(e) as u32),
    {
        custom_error(e.to_host_code())
    }
}

impl vstd::std_specs::convert::FromSpecImpl<EscrowError> for ProgramError {
    open spec fn obeys_from_spec() -> bool {
        true
    }

    open spec fn from_spec(e: EscrowError) -> ProgramError {
        custom_error_of(ordinal(e) as u32)
    }
}

} // verus!
