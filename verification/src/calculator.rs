//! The stateless arithmetic evaluator, the counter processor's simpler peer.
//!
//! Its instruction payload is a fixed 3-byte form with no framing:
//! `[opcode, left, right]`. The operands are signed integers in the range of
//! a single byte, widened to 64 bits for the operation. Six fixed opcodes are
//! defined; an unknown opcode is rejected. A payload shorter than 3 bytes is
//! deliberately accepted and performs no computation — the permissive
//! short-payload policy of the wire format, not an error. Every call is
//! independent; nothing is persisted.

use vstd::prelude::*;
use vstd::arithmetic::div_mod::{lemma_mod_multiples_vanish, lemma_mul_mod_noop_left};
use vstd::arithmetic::power::pow;
use vstd::wrapping::i64_specs;
use crate::error::ProcessError;

verus! {

/// The opcode table of the evaluator.
pub const OP_ADD: u8 = 0;

pub const OP_SUBTRACT: u8 = 1;

pub const OP_MULTIPLY: u8 = 2;

pub const OP_DIVIDE: u8 = 3;

pub const OP_MODULUS: u8 = 4;

pub const OP_POWER: u8 = 5;

/// The signed value an operand byte denotes: the byte reinterpreted as a
/// two's-complement signed integer, in `-128..=127`.
pub open spec fn operand_value(b: u8) -> int {
    if b >= 0x80 {
        b - 0x100
    } else {
        b as int
    }
}

/// Integer division truncated toward zero, as the evaluator performs it:
/// the quotient of the magnitudes, negated when the operand signs differ.
pub open spec fn div_trunc(a: int, b: int) -> int
    recommends
        b != 0,
{
    if (a >= 0) == (b >= 0) {
        abs(a) / abs(b)
    } else {
        -(abs(a) / abs(b))
    }
}

/// The remainder that pairs with `div_trunc`: the remainder of the
/// magnitudes, carrying the sign of the dividend.
pub open spec fn rem_trunc(a: int, b: int) -> int
    recommends
        b != 0,
{
    if a >= 0 {
        abs(a) % abs(b)
    } else {
        -(abs(a) % abs(b))
    }
}

/// The absolute value of `a`.
pub open spec fn abs(a: int) -> int {
    if a >= 0 {
        a
    } else {
        -a
    }
}

/// `base` raised to `exp`, reduced to the evaluator's 64-bit signed result
/// by two's-complement wrapping.
pub open spec fn power_wrapped(base: int, exp: nat) -> i64 {
    i64_specs::signed_crop(pow(base, exp))
}

/// What one evaluator call computes: the result for each defined opcode on
/// signed single-byte operands `l` and `r`, or the failure that opcode
/// defines. Unknown opcodes fail with `UnknownOperation`.
pub open spec fn eval_op(op: u8, l: int, r: int) -> Result<i64, ProcessError>
    recommends
        -128 <= l <= 127,
        -128 <= r <= 127,
{
    if op == OP_ADD {
        Ok((l + r) as i64)
    } else if op == OP_SUBTRACT {
        Ok((l - r) as i64)
    } else if op == OP_MULTIPLY {
        Ok((l * r) as i64)
    } else if op == OP_DIVIDE {
        if r != 0 {
            Ok(div_trunc(l, r) as i64)
        } else {
            Err(ProcessError::DivisionByZero)
        }
    } else if op == OP_MODULUS {
        if r != 0 {
            Ok(rem_trunc(l, r) as i64)
        } else {
            Err(ProcessError::ModulusByZero)
        }
    } else if op == OP_POWER {
        if r >= 0 {
            Ok(power_wrapped(l, r as nat))
        } else {
            Err(ProcessError::NegativeExponent)
        }
    } else {
        Err(ProcessError::UnknownOperation)
    }
}

/// Widens an operand byte to its signed 64-bit value.
fn sign_extend(b: u8) -> (r: i64)
    ensures
        r == operand_value(b),
        -128 <= r <= 127,
{
    if b >= 0x80 {
        (b as i64) - 0x100
    } else {
        b as i64
    }
}

/// `signed_crop` depends only on its argument's residue modulo 2^64, so a
/// factor may be cropped before a multiplication without changing the
/// cropped product.
proof fn lemma_signed_crop_mul(x: int, y: int)
    ensures
        i64_specs::signed_crop((i64_specs::signed_crop(x) as int) * y) == i64_specs::signed_crop(
            x * y,
        ),
{
    let m = 0x1_0000_0000_0000_0000int;
    let s = i64_specs::signed_crop(x) as int;
    lemma_mul_mod_noop_left(x, y, m);
    if s == x % m {
        assert((s * y) % m == (x * y) % m);
    } else {
        assert(s == x % m - m);
        assert(s * y == (x % m) * y - m * y) by {
            assert(s * y == y * s == y * (x % m) - y * m) by (nonlinear_arith)
                requires
                    s == x % m - m,
            ;
        }
        lemma_mod_multiples_vanish(-y, (x % m) * y, m);
        assert(m * (-y) + (x % m) * y == s * y) by (nonlinear_arith)
            requires
                s * y == (x % m) * y - m * y,
        ;
        assert((s * y) % m == (x * y) % m);
    }
}

/// Raises `base` to `exp` with two's-complement 64-bit wrapping, as a chain
/// of wrapping multiplications.
fn power_exec(base: i64, exp: i64) -> (res: i64)
    requires
        -128 <= base <= 127,
        0 <= exp <= 127,
    ensures
        res == power_wrapped(base as int, exp as nat),
{
    let mut acc: i64 = 1i64;
    let mut i: i64 = 0;
    proof {
        vstd::arithmetic::power::lemma_pow0(base as int);
    }
    while i < exp
        invariant
            0 <= i <= exp,
            -128 <= base <= 127,
            acc == i64_specs::signed_crop(pow(base as int, i as nat)),
        decreases exp - i,
    {
        proof {
            reveal(pow);
            lemma_signed_crop_mul(pow(base as int, i as nat), base as int);
            vstd::arithmetic::mul::lemma_mul_is_commutative(pow(base as int, i as nat), base as int);
            assert(pow(base as int, (i + 1) as nat) == (base as int) * pow(base as int, i as nat));
        }
        acc = acc.wrapping_mul(base);
        i = i + 1;
    }
    acc
}

/// Truncating division of signed single-byte operands.
fn div_exec(l: i64, r: i64) -> (res: i64)
    requires
        -128 <= l <= 127,
        -128 <= r <= 127,
        r != 0,
    ensures
        res == div_trunc(l as int, r as int),
{
    let la: u64 = if l >= 0 {
        l as u64
    } else {
        (-l) as u64
    };
    let ra: u64 = if r >= 0 {
        r as u64
    } else {
        (-r) as u64
    };
    let q = la / ra;
    if (l >= 0) == (r >= 0) {
        q as i64
    } else {
        -(q as i64)
    }
}

/// Truncating remainder of signed single-byte operands.
fn rem_exec(l: i64, r: i64) -> (res: i64)
    requires
        -128 <= l <= 127,
        -128 <= r <= 127,
        r != 0,
    ensures
        res == rem_trunc(l as int, r as int),
{
    let la: u64 = if l >= 0 {
        l as u64
    } else {
        (-l) as u64
    };
    let ra: u64 = if r >= 0 {
        r as u64
    } else {
        (-r) as u64
    };
    let m = la % ra;
    if l >= 0 {
        m as i64
    } else {
        -(m as i64)
    }
}

/// Performs one evaluator operation on already-widened operands.
pub fn evaluate_op(op: u8, left: u8, right: u8) -> (res: Result<i64, ProcessError>)
    ensures
        res == eval_op(op, operand_value(left), operand_value(right)),
{
    let l = sign_extend(left);
    let r = sign_extend(right);
    if op == OP_ADD {
        Ok(l + r)
    } else if op == OP_SUBTRACT {
        Ok(l - r)
    } else if op == OP_MULTIPLY {
        proof {
            assert(-16384 <= l * r <= 16384) by (nonlinear_arith)
                requires
                    -128 <= l <= 127 && -128 <= r <= 127,
            ;
        }
        Ok(l * r)
    } else if op == OP_DIVIDE {
        if r != 0 {
            Ok(div_exec(l, r))
        } else {
            Err(ProcessError::DivisionByZero)
        }
    } else if op == OP_MODULUS {
        if r != 0 {
            Ok(rem_exec(l, r))
        } else {
            Err(ProcessError::ModulusByZero)
        }
    } else if op == OP_POWER {
        if r >= 0 {
            Ok(power_exec(l, r))
        } else {
            Err(ProcessError::NegativeExponent)
        }
    } else {
        Err(ProcessError::UnknownOperation)
    }
}

/// The evaluator's entry point: decodes the fixed 3-byte payload and
/// computes the selected operation. A payload shorter than 3 bytes performs
/// no computation and succeeds with no result; the host reports the computed
/// value to its observability channel but nothing is persisted.
pub fn evaluate(instruction_data: &[u8]) -> (res: Result<Option<i64>, ProcessError>)
    ensures
        instruction_data@.len() < 3 ==> res == Ok::<Option<i64>, ProcessError>(None),
        instruction_data@.len() >= 3 ==> res == (match eval_op(
            instruction_data@[0],
            operand_value(instruction_data@[1]),
            operand_value(instruction_data@[2]),
        ) {
            Ok(v) => Ok::<Option<i64>, ProcessError>(Some(v)),
            Err(e) => Err::<Option<i64>, ProcessError>(e),
        }),
{
    if instruction_data.len() < 3 {
        return Ok(None);
    }
    let op = *vstd::slice::slice_index_get(instruction_data, 0);
    let left = *vstd::slice::slice_index_get(instruction_data, 1);
    let right = *vstd::slice::slice_index_get(instruction_data, 2);
    match evaluate_op(op, left, right) {
        Ok(v) => Ok(Some(v)),
        Err(e) => Err(e),
    }
}

} // verus!
