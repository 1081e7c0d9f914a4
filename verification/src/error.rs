//! The caller-visible error taxonomy.
//!
//! Every failure of the processor is detected at the earliest possible check
//! (decode before validate, validate before mutate) and surfaced as one of
//! these variants; none is retried internally.

use vstd::prelude::*;

verus! {

/// Everything that can go wrong while processing an instruction, for both the
/// stateful counter processor and the stateless arithmetic evaluator.
#[derive(Clone, Copy, Debug, PartialEq, Eq, Structural)]
pub enum ProcessError {
    /// The instruction payload is malformed or carries an unrecognized tag.
    InvalidInstruction,
    /// The call supplied fewer account references than the operation needs.
    NotEnoughAccounts,
    /// The target record's owning identity differs from the caller's.
    IncorrectOwner,
    /// The external account-creation service failed; nothing was created.
    ProvisioningFailed,
    /// A checked increment would wrap past the maximum representable count.
    ArithmeticOverflow,
    /// The stored bytes cannot hold or represent a valid record.
    MalformedState,
    /// Division with a zero right operand.
    DivisionByZero,
    /// Modulus with a zero right operand.
    ModulusByZero,
    /// Exponentiation with a negative exponent.
    NegativeExponent,
    /// An opcode outside the evaluator's fixed table.
    UnknownOperation,
}

} // verus!
