//! Integer arithmetic of the `i32` and `i64` instruction families.
//!
//! Operands and results are 64-bit stack cells. A 32-bit instruction reads
//! the low 32 bits of each operand; its result is widened back to a cell by
//! sign (for signed results) or by zeros (for unsigned ones).
use crate::error::ExecuteError;
use crate::error::ExecuteResult;
use crate::module::Opcode;
use vstd::arithmetic::div_mod::lemma_add_mod_noop;
use vstd::arithmetic::div_mod::lemma_basic_div;
use vstd::arithmetic::div_mod::lemma_div_nonincreasing;
use vstd::arithmetic::div_mod::lemma_div_pos_is_pos;
use vstd::arithmetic::div_mod::lemma_mod_bound;
use vstd::arithmetic::div_mod::lemma_mul_mod_noop;
use vstd::arithmetic::div_mod::lemma_small_mod;
use vstd::arithmetic::div_mod::lemma_sub_mod_noop;
use vstd::prelude::*;
use vstd::std_specs::bits::u32_leading_zeros;
use vstd::std_specs::bits::u32_trailing_zeros;
use vstd::std_specs::bits::u64_leading_zeros;
use vstd::std_specs::bits::u64_trailing_zeros;

verus! {

/// `x` reduced to an unsigned 32-bit number.
pub open spec fn wrap_u32(x: int) -> int {
    x % 0x1_0000_0000
}

/// `x` reduced to 32 bits and read as a signed number.
pub open spec fn wrap_i32(x: int) -> int {
    let m = x % 0x1_0000_0000;
    if m >= 0x8000_0000 {
        m - 0x1_0000_0000
    } else {
        m
    }
}

/// `x` reduced to an unsigned 64-bit number.
pub open spec fn wrap_u64(x: int) -> int {
    x % 0x1_0000_0000_0000_0000
}

/// `x` reduced to 64 bits and read as a signed number.
pub open spec fn wrap_i64(x: int) -> int {
    let m = x % 0x1_0000_0000_0000_0000;
    if m >= 0x8000_0000_0000_0000 {
        m - 0x1_0000_0000_0000_0000
    } else {
        m
    }
}

/// The absolute value of `x`.
pub open spec fn magnitude(x: int) -> int {
    if x < 0 {
        -x
    } else {
        x
    }
}

/// The quotient of `a` by `b`, rounded toward zero.
pub open spec fn trunc_div(a: int, b: int) -> int {
    if (a < 0) == (b < 0) {
        magnitude(a) / magnitude(b)
    } else {
        -(magnitude(a) / magnitude(b))
    }
}

/// The remainder that goes with [`trunc_div`]; it has the sign of `a`.
pub open spec fn trunc_rem(a: int, b: int) -> int {
    if a < 0 {
        -(magnitude(a) % magnitude(b))
    } else {
        magnitude(a) % magnitude(b)
    }
}

/// The number of one bits in the binary form of `x`.
pub open spec fn popcount(x: nat) -> nat
    decreases x,
{
    if x == 0 {
        0
    } else {
        x % 2 + popcount(x / 2)
    }
}

/// `x` rotated left by `k` bits within 32 bits, for `k < 32`.
pub open spec fn rotl32(x: u32, k: u32) -> u32 {
    if k == 0 {
        x
    } else {
        (x << k) | (x >> ((32 - k) as u32))
    }
}

/// `x` rotated left by `k` bits within 64 bits, for `k < 64`.
pub open spec fn rotl64(x: u64, k: u32) -> u64 {
    if k == 0 {
        x
    } else {
        (x << k) | (x >> ((64 - k) as u32))
    }
}

/// `x` rotated right by `k` bits within 32 bits, for `k < 32`.
pub open spec fn rotr32(x: u32, k: u32) -> u32 {
    if k == 0 {
        x
    } else {
        (x >> k) | (x << ((32 - k) as u32))
    }
}

/// `x` rotated right by `k` bits within 64 bits, for `k < 64`.
pub open spec fn rotr64(x: u64, k: u32) -> u64 {
    if k == 0 {
        x
    } else {
        (x >> k) | (x << ((64 - k) as u32))
    }
}

/// The shift or rotation count that the cell `b` stands for on operands of
/// `bits` bits: `b` modulo the operand width.
pub open spec fn shift_count(b: i64, bits: int) -> u32 {
    ((b as int) % bits) as u32
}

/// `u32::count_ones` of the standard library: the number of one bits.
pub assume_specification[ u32::count_ones ](x: u32) -> (r: u32)
    ensures
        r == popcount(x as nat),
;

/// `u64::count_ones` of the standard library: the number of one bits.
pub assume_specification[ u64::count_ones ](x: u64) -> (r: u32)
    ensures
        r == popcount(x as nat),
;

/// Whether `op` takes one operand and leaves one result.
pub open spec fn is_unary(op: Opcode) -> bool {
    matches!(
        op,
        Opcode::I32Ctz | Opcode::I32Clz | Opcode::I32Popcnt | Opcode::I32WrapI64 | Opcode::I64Ctz
            | Opcode::I64Clz | Opcode::I64Popcnt | Opcode::I64ExtendI32U | Opcode::I64ExtendI32S
    )
}

/// Whether `op` takes two operands and leaves one result.
pub open spec fn is_binary(op: Opcode) -> bool {
    matches!(
        op,
        Opcode::I32Add | Opcode::I32Sub | Opcode::I32Mul | Opcode::I32DivU | Opcode::I32DivS
            | Opcode::I32RemU | Opcode::I32RemS | Opcode::I32And | Opcode::I32Or | Opcode::I32Xor
            | Opcode::I32Shl | Opcode::I32ShrU | Opcode::I32ShrS | Opcode::I32Rotl | Opcode::I32Rotr
            | Opcode::I64Add | Opcode::I64Sub | Opcode::I64Mul | Opcode::I64DivU | Opcode::I64DivS
            | Opcode::I64RemU | Opcode::I64RemS | Opcode::I64And | Opcode::I64Or | Opcode::I64Xor
            | Opcode::I64Shl | Opcode::I64ShrU | Opcode::I64ShrS | Opcode::I64Rotl | Opcode::I64Rotr
    )
}

/// Whether `op` compares two operands.
pub open spec fn is_relational(op: Opcode) -> bool {
    matches!(
        op,
        Opcode::I32Eq | Opcode::I32Ne | Opcode::I32LtU | Opcode::I32LtS | Opcode::I32LeU
            | Opcode::I32LeS | Opcode::I32GtU | Opcode::I32GtS | Opcode::I32GeU | Opcode::I32GeS
            | Opcode::I64Eq | Opcode::I64Ne | Opcode::I64LtU | Opcode::I64LtS | Opcode::I64LeU
            | Opcode::I64LeS | Opcode::I64GtU | Opcode::I64GtS | Opcode::I64GeU | Opcode::I64GeS
    )
}

/// What a one-operand instruction makes of the cell `v`; any other opcode
/// leaves it as it is.
pub open spec fn unary_spec(op: Opcode, v: i64) -> i64 {
    match op {
        Opcode::I32Ctz => u32_trailing_zeros(v as u32) as i64,
        Opcode::I32Clz => u32_leading_zeros(v as u32) as i64,
        Opcode::I32Popcnt => popcount(wrap_u32(v as int) as nat) as i64,
        Opcode::I32WrapI64 => wrap_u32(v as int) as i64,
        Opcode::I64Ctz => u64_trailing_zeros(v as u64) as i64,
        Opcode::I64Clz => u64_leading_zeros(v as u64) as i64,
        Opcode::I64Popcnt => popcount(wrap_u64(v as int) as nat) as i64,
        Opcode::I64ExtendI32U => wrap_u32(v as int) as i64,
        Opcode::I64ExtendI32S => wrap_i32(v as int) as i64,
        _ => v,
    }
}

/// What a two-operand instruction makes of the cells `a` (pushed first)
/// and `b` (on top); any other opcode yields `a`. Division and remainder by
/// zero are errors.
pub open spec fn binary_spec(op: Opcode, a: i64, b: i64) -> ExecuteResult<i64> {
    match op {
        Opcode::I32Add => Ok(wrap_i32(a + b) as i64),
        Opcode::I32Sub => Ok(wrap_i32(a - b) as i64),
        Opcode::I32Mul => Ok(wrap_i32(a * b) as i64),
        Opcode::I32DivU => if wrap_u32(b as int) == 0 {
            Err(ExecuteError::DivideByZero)
        } else {
            Ok((wrap_u32(a as int) / wrap_u32(b as int)) as i64)
        },
        Opcode::I32DivS => if wrap_i32(b as int) == 0 {
            Err(ExecuteError::DivideByZero)
        } else {
            Ok(wrap_i32(trunc_div(wrap_i32(a as int), wrap_i32(b as int))) as i64)
        },
        Opcode::I32RemU => if wrap_u32(b as int) == 0 {
            Err(ExecuteError::DivideByZero)
        } else {
            Ok((wrap_u32(a as int) % wrap_u32(b as int)) as i64)
        },
        Opcode::I32RemS => if wrap_i32(b as int) == 0 {
            Err(ExecuteError::DivideByZero)
        } else {
            Ok(trunc_rem(wrap_i32(a as int), wrap_i32(b as int)) as i64)
        },
        Opcode::I32And => Ok(((a as u32) & (b as u32)) as i64),
        Opcode::I32Or => Ok(((a as u32) | (b as u32)) as i64),
        Opcode::I32Xor => Ok(((a as u32) ^ (b as u32)) as i64),
        Opcode::I32Shl => Ok(((a as u32) << shift_count(b, 32)) as i64),
        Opcode::I32ShrU => Ok(((a as u32) >> shift_count(b, 32)) as i64),
        Opcode::I32ShrS => Ok(((a as i32) >> shift_count(b, 32)) as i64),
        Opcode::I32Rotl => Ok(rotl32(a as u32, shift_count(b, 32)) as i64),
        Opcode::I32Rotr => Ok(rotr32(a as u32, shift_count(b, 32)) as i64),
        Opcode::I64Add => Ok(wrap_i64(a + b) as i64),
        Opcode::I64Sub => Ok(wrap_i64(a - b) as i64),
        Opcode::I64Mul => Ok(wrap_i64(a * b) as i64),
        Opcode::I64DivU => if b == 0 {
            Err(ExecuteError::DivideByZero)
        } else {
            Ok(wrap_i64(wrap_u64(a as int) / wrap_u64(b as int)) as i64)
        },
        Opcode::I64DivS => if b == 0 {
            Err(ExecuteError::DivideByZero)
        } else {
            Ok(wrap_i64(trunc_div(a as int, b as int)) as i64)
        },
        Opcode::I64RemU => if b == 0 {
            Err(ExecuteError::DivideByZero)
        } else {
            Ok(wrap_i64(wrap_u64(a as int) % wrap_u64(b as int)) as i64)
        },
        Opcode::I64RemS => if b == 0 {
            Err(ExecuteError::DivideByZero)
        } else {
            Ok(trunc_rem(a as int, b as int) as i64)
        },
        Opcode::I64And => Ok(a & b),
        Opcode::I64Or => Ok(a | b),
        Opcode::I64Xor => Ok(a ^ b),
        Opcode::I64Shl => Ok(((a as u64) << shift_count(b, 64)) as i64),
        Opcode::I64ShrU => Ok(((a as u64) >> shift_count(b, 64)) as i64),
        Opcode::I64ShrS => Ok(a >> shift_count(b, 64)),
        Opcode::I64Rotl => Ok(rotl64(a as u64, shift_count(b, 64)) as i64),
        Opcode::I64Rotr => Ok(rotr64(a as u64, shift_count(b, 64)) as i64),
        _ => Ok(a),
    }
}

/// Whether a comparison holds of the cells `a` (pushed first) and `b` (on
/// top); an opcode that is no comparison holds of nothing.
pub open spec fn relational_spec(op: Opcode, a: i64, b: i64) -> bool {
    match op {
        Opcode::I32Eq => wrap_u32(a as int) == wrap_u32(b as int),
        Opcode::I32Ne => wrap_u32(a as int) != wrap_u32(b as int),
        Opcode::I32LtU => wrap_u32(a as int) < wrap_u32(b as int),
        Opcode::I32LtS => wrap_i32(a as int) < wrap_i32(b as int),
        Opcode::I32LeU => wrap_u32(a as int) <= wrap_u32(b as int),
        Opcode::I32LeS => wrap_i32(a as int) <= wrap_i32(b as int),
        Opcode::I32GtU => wrap_u32(a as int) > wrap_u32(b as int),
        Opcode::I32GtS => wrap_i32(a as int) > wrap_i32(b as int),
        Opcode::I32GeU => wrap_u32(a as int) >= wrap_u32(b as int),
        Opcode::I32GeS => wrap_i32(a as int) >= wrap_i32(b as int),
        Opcode::I64Eq => a == b,
        Opcode::I64Ne => a != b,
        Opcode::I64LtU => wrap_u64(a as int) < wrap_u64(b as int),
        Opcode::I64LtS => a < b,
        Opcode::I64LeU => wrap_u64(a as int) <= wrap_u64(b as int),
        Opcode::I64LeS => a <= b,
        Opcode::I64GtU => wrap_u64(a as int) > wrap_u64(b as int),
        Opcode::I64GtS => a > b,
        Opcode::I64GeU => wrap_u64(a as int) >= wrap_u64(b as int),
        Opcode::I64GeS => a >= b,
        _ => false,
    }
}

/// Truncating a cell to 32 bits is reduction modulo `2^32`.
pub proof fn lemma_low_u32(v: i64)
    ensures
        (v as u32) as int == wrap_u32(v as int),
{
    assert((v as u32) as int == (v as int) % 0x1_0000_0000) by (bit_vector);
}

/// Reading the low 32 bits of a cell as a signed number.
pub proof fn lemma_low_i32(v: i64)
    ensures
        (v as i32) as int == wrap_i32(v as int),
{
    assert((v as i32) as int == {
        let m = (v as int) % 0x1_0000_0000;
        if m >= 0x8000_0000 {
            m - 0x1_0000_0000
        } else {
            m
        }
    }) by (bit_vector);
}

/// Reading a cell as an unsigned 64-bit number.
pub proof fn lemma_cell_u64(v: i64)
    ensures
        (v as u64) as int == wrap_u64(v as int),
        wrap_u64(v as int) == if v < 0 {
            v + 0x1_0000_0000_0000_0000
        } else {
            v as int
        },
{
    assert((v as u64) as int == if v < 0 {
        v + 0x1_0000_0000_0000_0000
    } else {
        v as int
    }) by (bit_vector);
    if v < 0 {
        lemma_small_mod((v + 0x1_0000_0000_0000_0000) as nat, 0x1_0000_0000_0000_0000);
        vstd::arithmetic::div_mod::lemma_mod_add_multiples_vanish(
            v as int,
            0x1_0000_0000_0000_0000,
        );
    } else {
        lemma_small_mod(v as nat, 0x1_0000_0000_0000_0000);
    }
}

/// Reading an unsigned 64-bit number as a cell.
pub proof fn lemma_u64_cell(x: u64)
    ensures
        (x as i64) as int == wrap_i64(x as int),
{
    assert((x as i64) as int == if x >= 0x8000_0000_0000_0000 {
        x - 0x1_0000_0000_0000_0000
    } else {
        x as int
    }) by (bit_vector);
    lemma_small_mod(x as nat, 0x1_0000_0000_0000_0000);
}

/// The low bits of a cell that count for a shift are the cell modulo the
/// operand width.
pub proof fn lemma_shift_count(b: i64)
    ensures
        shift_count(b, 32) == (b as u32) % 32,
        shift_count(b, 64) == (b as u32) % 64,
        shift_count(b, 32) < 32,
        shift_count(b, 64) < 64,
{
    assert(((b as int) % 32) as u32 == (b as u32) % 32) by (bit_vector);
    assert(((b as int) % 64) as u32 == (b as u32) % 64) by (bit_vector);
}

/// Signed 32-bit values wrap to themselves.
pub proof fn lemma_wrap_i32_fixed(x: int)
    requires
        -0x8000_0000 <= x < 0x8000_0000,
    ensures
        wrap_i32(x) == x,
{
    if x < 0 {
        lemma_small_mod((x + 0x1_0000_0000) as nat, 0x1_0000_0000);
        vstd::arithmetic::div_mod::lemma_mod_add_multiples_vanish(x, 0x1_0000_0000);
    } else {
        lemma_small_mod(x as nat, 0x1_0000_0000);
    }
}

/// Signed 64-bit values wrap to themselves.
pub proof fn lemma_wrap_i64_fixed(x: int)
    requires
        -0x8000_0000_0000_0000 <= x < 0x8000_0000_0000_0000,
    ensures
        wrap_i64(x) == x,
{
    if x < 0 {
        lemma_small_mod((x + 0x1_0000_0000_0000_0000) as nat, 0x1_0000_0000_0000_0000);
        vstd::arithmetic::div_mod::lemma_mod_add_multiples_vanish(x, 0x1_0000_0000_0000_0000);
    } else {
        lemma_small_mod(x as nat, 0x1_0000_0000_0000_0000);
    }
}

/// A truncated quotient is no larger in magnitude than its dividend, and a
/// truncated remainder is smaller in magnitude than its divisor.
pub proof fn lemma_trunc_bounds(a: int, b: int)
    requires
        b != 0,
    ensures
        magnitude(trunc_div(a, b)) <= magnitude(a),
        magnitude(trunc_rem(a, b)) < magnitude(b),
        magnitude(trunc_rem(a, b)) <= magnitude(a),
        a == b * trunc_div(a, b) + trunc_rem(a, b),
{
    let x = magnitude(a);
    let y = magnitude(b);
    lemma_div_nonincreasing(x, y);
    lemma_div_pos_is_pos(x, y);
    lemma_mod_bound(x, y);
    vstd::arithmetic::div_mod::lemma_fundamental_div_mod(x, y);
    vstd::arithmetic::div_mod::lemma_mod_decreases(x as nat, y as nat);
    let q = x / y;
    assert(b * trunc_div(a, b) == if a < 0 {
        -(y * q)
    } else {
        y * q
    }) by (nonlinear_arith)
        requires
            y == magnitude(b),
            trunc_div(a, b) == if (a < 0) == (b < 0) {
                q
            } else {
                -q
            },
            b != 0,
    ;
}

fn div_s32(x: i32, y: i32) -> (r: i32)
    requires
        y != 0,
    ensures
        r == wrap_i32(trunc_div(x as int, y as int)),
{
    proof {
        lemma_trunc_bounds(x as int, y as int);
        if x == 0 {
            lemma_basic_div(0, magnitude(y as int));
        }
        if x == i32::MIN && y == -1 {
            assert(trunc_div(x as int, y as int) == 0x8000_0000) by {
                vstd::arithmetic::div_mod::lemma_div_basics(0x8000_0000);
            }
            lemma_small_mod(0x8000_0000, 0x1_0000_0000);
        } else {
            if x == i32::MIN && y < -1 {
                vstd::arithmetic::div_mod::lemma_div_decreases(0x8000_0000, magnitude(y as int));
            }
            lemma_wrap_i32_fixed(trunc_div(x as int, y as int));
        }
    }
    match x.checked_div(y) {
        Some(q) => q,
        None => i32::MIN,
    }
}

fn rem_s32(x: i32, y: i32) -> (r: i32)
    requires
        y != 0,
    ensures
        r == trunc_rem(x as int, y as int),
{
    proof {
        lemma_trunc_bounds(x as int, y as int);
        if x == 0 {
            lemma_small_mod(0, magnitude(y as int) as nat);
        }
        if y == -1 {
            assert(magnitude(x as int) % 1 == 0);
        }
    }
    match x.checked_rem(y) {
        Some(q) => q,
        None => 0,
    }
}

fn div_s64(x: i64, y: i64) -> (r: i64)
    requires
        y != 0,
    ensures
        r == wrap_i64(trunc_div(x as int, y as int)),
{
    proof {
        lemma_trunc_bounds(x as int, y as int);
        if x == 0 {
            lemma_basic_div(0, magnitude(y as int));
        }
        if x == i64::MIN && y == -1 {
            assert(trunc_div(x as int, y as int) == 0x8000_0000_0000_0000) by {
                vstd::arithmetic::div_mod::lemma_div_basics(0x8000_0000_0000_0000);
            }
            lemma_small_mod(0x8000_0000_0000_0000, 0x1_0000_0000_0000_0000);
        } else {
            if x == i64::MIN && y < -1 {
                vstd::arithmetic::div_mod::lemma_div_decreases(
                    0x8000_0000_0000_0000,
                    magnitude(y as int),
                );
            }
            lemma_wrap_i64_fixed(trunc_div(x as int, y as int));
        }
    }
    match x.checked_div(y) {
        Some(q) => q,
        None => i64::MIN,
    }
}

fn rem_s64(x: i64, y: i64) -> (r: i64)
    requires
        y != 0,
    ensures
        r == trunc_rem(x as int, y as int),
{
    proof {
        lemma_trunc_bounds(x as int, y as int);
        if x == 0 {
            lemma_small_mod(0, magnitude(y as int) as nat);
        }
        if y == -1 {
            assert(magnitude(x as int) % 1 == 0);
        }
    }
    match x.checked_rem(y) {
        Some(q) => q,
        None => 0,
    }
}

/// Numbers that differ by a multiple of `2^32` wrap to the same value.
pub proof fn lemma_wrap_i32_congruent(x: int, y: int)
    requires
        x % 0x1_0000_0000 == y % 0x1_0000_0000,
    ensures
        wrap_i32(x) == wrap_i32(y),
        wrap_u32(x) == wrap_u32(y),
{
}

/// The signed reading of the low 32 bits is congruent to the number itself.
pub proof fn lemma_wrap_i32_residue(x: int)
    ensures
        wrap_i32(x) % 0x1_0000_0000 == x % 0x1_0000_0000,
        -0x8000_0000 <= wrap_i32(x) < 0x8000_0000,
        0 <= wrap_u32(x) < 0x1_0000_0000,
{
    let m = x % 0x1_0000_0000;
    lemma_mod_bound(x, 0x1_0000_0000);
    vstd::arithmetic::div_mod::lemma_mod_twice(x, 0x1_0000_0000);
    if m >= 0x8000_0000 {
        vstd::arithmetic::div_mod::lemma_mod_sub_multiples_vanish(m, 0x1_0000_0000);
    }
}

/// How a sum, difference or product within twice the 64-bit range wraps.
pub proof fn lemma_wrap_i64_near(x: int)
    requires
        -0x1_0000_0000_0000_0000 <= x < 0x1_0000_0000_0000_0000,
    ensures
        wrap_i64(x) == if x >= 0x8000_0000_0000_0000 {
            x - 0x1_0000_0000_0000_0000
        } else if x < -0x8000_0000_0000_0000 {
            x + 0x1_0000_0000_0000_0000
        } else {
            x
        },
{
    if x >= 0x8000_0000_0000_0000 {
        lemma_small_mod(x as nat, 0x1_0000_0000_0000_0000);
    } else if x < -0x8000_0000_0000_0000 {
        lemma_small_mod((x + 0x1_0000_0000_0000_0000) as nat, 0x1_0000_0000_0000_0000);
        vstd::arithmetic::div_mod::lemma_mod_add_multiples_vanish(x, 0x1_0000_0000_0000_0000);
    } else {
        lemma_wrap_i64_fixed(x);
    }
}

/// How a sum or difference of two signed 32-bit numbers wraps.
pub proof fn lemma_wrap_i32_near(x: int)
    requires
        -0x1_0000_0000 <= x < 0x1_0000_0000,
    ensures
        wrap_i32(x) == if x >= 0x8000_0000 {
            x - 0x1_0000_0000
        } else if x < -0x8000_0000 {
            x + 0x1_0000_0000
        } else {
            x
        },
{
    if x >= 0x8000_0000 {
        lemma_small_mod(x as nat, 0x1_0000_0000);
    } else if x < -0x8000_0000 {
        lemma_small_mod((x + 0x1_0000_0000) as nat, 0x1_0000_0000);
        vstd::arithmetic::div_mod::lemma_mod_add_multiples_vanish(x, 0x1_0000_0000);
    } else {
        lemma_wrap_i32_fixed(x);
    }
}

/// Addition, subtraction and multiplication on 32 bits see only the low 32
/// bits of their operands.
pub proof fn lemma_i32_arith(a: i64, b: i64)
    ensures
        wrap_i32(wrap_i32(a as int) + wrap_i32(b as int)) == wrap_i32(a + b),
        wrap_i32(wrap_i32(a as int) - wrap_i32(b as int)) == wrap_i32(a - b),
        wrap_i32(wrap_i32(a as int) * wrap_i32(b as int)) == wrap_i32(a * b),
{
    let m = 0x1_0000_0000int;
    let x = wrap_i32(a as int);
    let y = wrap_i32(b as int);
    lemma_wrap_i32_residue(a as int);
    lemma_wrap_i32_residue(b as int);
    lemma_add_mod_noop(a as int, b as int, m);
    lemma_add_mod_noop(x, y, m);
    lemma_sub_mod_noop(a as int, b as int, m);
    lemma_sub_mod_noop(x, y, m);
    lemma_mul_mod_noop(a as int, b as int, m);
    lemma_mul_mod_noop(x, y, m);
    lemma_wrap_i32_congruent(x + y, a + b);
    lemma_wrap_i32_congruent(x - y, a - b);
    lemma_wrap_i32_congruent(x * y, a * b);
}

/// Applies a one-operand instruction to the cell `v`. An opcode that is
/// no such instruction leaves the cell as it is.
pub fn unary(op: Opcode, v: i64) -> (r: i64)
    ensures
        r == unary_spec(op, v),
{
    proof {
        lemma_low_u32(v);
        lemma_low_i32(v);
        lemma_cell_u64(v);
    }
    match op {
        Opcode::I32Ctz => (v as u32).trailing_zeros() as i64,
        Opcode::I32Clz => (v as u32).leading_zeros() as i64,
        Opcode::I32Popcnt => (v as u32).count_ones() as i64,
        Opcode::I64Ctz => (v as u64).trailing_zeros() as i64,
        Opcode::I64Clz => (v as u64).leading_zeros() as i64,
        Opcode::I64Popcnt => (v as u64).count_ones() as i64,
        Opcode::I32WrapI64 | Opcode::I64ExtendI32U => (v as u32) as i64,
        Opcode::I64ExtendI32S => (v as i32) as i64,
        _ => v,
    }
}

fn rotate_left_32(x: u32, k: u32) -> (r: u32)
    requires
        k < 32,
    ensures
        r == rotl32(x, k),
{
    if k == 0 {
        x
    } else {
        (x << k) | (x >> (32 - k))
    }
}

fn rotate_right_32(x: u32, k: u32) -> (r: u32)
    requires
        k < 32,
    ensures
        r == rotr32(x, k),
{
    if k == 0 {
        x
    } else {
        (x >> k) | (x << (32 - k))
    }
}

fn rotate_left_64(x: u64, k: u32) -> (r: u64)
    requires
        k < 64,
    ensures
        r == rotl64(x, k),
{
    if k == 0 {
        x
    } else {
        (x << k) | (x >> (64 - k))
    }
}

fn rotate_right_64(x: u64, k: u32) -> (r: u64)
    requires
        k < 64,
    ensures
        r == rotr64(x, k),
{
    if k == 0 {
        x
    } else {
        (x >> k) | (x << (64 - k))
    }
}

fn binary_32(op: Opcode, a: i64, b: i64) -> (r: ExecuteResult<i64>)
    requires
        matches!(
            op,
            Opcode::I32Add | Opcode::I32Sub | Opcode::I32Mul | Opcode::I32DivU | Opcode::I32DivS
                | Opcode::I32RemU | Opcode::I32RemS | Opcode::I32And | Opcode::I32Or
                | Opcode::I32Xor | Opcode::I32Shl | Opcode::I32ShrU | Opcode::I32ShrS
                | Opcode::I32Rotl | Opcode::I32Rotr
        ),
    ensures
        r == binary_spec(op, a, b),
{
    let x = a as i32;
    let y = b as i32;
    let ux = a as u32;
    let uy = b as u32;
    proof {
        lemma_low_u32(a);
        lemma_low_u32(b);
        lemma_low_i32(a);
        lemma_low_i32(b);
        lemma_shift_count(b);
        lemma_i32_arith(a, b);
        lemma_wrap_i32_near(x + y);
        lemma_wrap_i32_near(x - y);
    }
    match op {
        Opcode::I32Add => Ok(x.wrapping_add(y) as i64),
        Opcode::I32Sub => Ok(x.wrapping_sub(y) as i64),
        Opcode::I32Mul => Ok(x.wrapping_mul(y) as i64),
        Opcode::I32DivU => if uy == 0 {
            Err(ExecuteError::DivideByZero)
        } else {
            Ok((ux / uy) as i64)
        },
        Opcode::I32DivS => if y == 0 {
            Err(ExecuteError::DivideByZero)
        } else {
            Ok(div_s32(x, y) as i64)
        },
        Opcode::I32RemU => if uy == 0 {
            Err(ExecuteError::DivideByZero)
        } else {
            Ok((ux % uy) as i64)
        },
        Opcode::I32RemS => if y == 0 {
            Err(ExecuteError::DivideByZero)
        } else {
            Ok(rem_s32(x, y) as i64)
        },
        Opcode::I32And => Ok((ux & uy) as i64),
        Opcode::I32Or => Ok((ux | uy) as i64),
        Opcode::I32Xor => Ok((ux ^ uy) as i64),
        Opcode::I32Shl => Ok(ux.wrapping_shl(uy) as i64),
        Opcode::I32ShrU => Ok(ux.wrapping_shr(uy) as i64),
        Opcode::I32ShrS => Ok(x.wrapping_shr(uy) as i64),
        Opcode::I32Rotl => Ok(rotate_left_32(ux, uy % 32) as i64),
        Opcode::I32Rotr => Ok(rotate_right_32(ux, uy % 32) as i64),
        _ => Ok(a),
    }
}

fn binary_64(op: Opcode, a: i64, b: i64) -> (r: ExecuteResult<i64>)
    requires
        matches!(
            op,
            Opcode::I64Add | Opcode::I64Sub | Opcode::I64Mul | Opcode::I64DivU | Opcode::I64DivS
                | Opcode::I64RemU | Opcode::I64RemS | Opcode::I64And | Opcode::I64Or
                | Opcode::I64Xor | Opcode::I64Shl | Opcode::I64ShrU | Opcode::I64ShrS
                | Opcode::I64Rotl | Opcode::I64Rotr
        ),
    ensures
        r == binary_spec(op, a, b),
{
    let ux = a as u64;
    let uy = b as u64;
    let k = b as u32;
    proof {
        lemma_cell_u64(a);
        lemma_cell_u64(b);
        lemma_shift_count(b);
        lemma_wrap_i64_near(a + b);
        lemma_wrap_i64_near(a - b);
    }
    match op {
        Opcode::I64Add => Ok(a.wrapping_add(b)),
        Opcode::I64Sub => Ok(a.wrapping_sub(b)),
        Opcode::I64Mul => Ok(a.wrapping_mul(b)),
        Opcode::I64DivU => if uy == 0 {
            Err(ExecuteError::DivideByZero)
        } else {
            let q = ux / uy;
            proof {
                lemma_u64_cell(q);
            }
            Ok(q as i64)
        },
        Opcode::I64DivS => if b == 0 {
            Err(ExecuteError::DivideByZero)
        } else {
            Ok(div_s64(a, b))
        },
        Opcode::I64RemU => if uy == 0 {
            Err(ExecuteError::DivideByZero)
        } else {
            let q = ux % uy;
            proof {
                lemma_u64_cell(q);
            }
            Ok(q as i64)
        },
        Opcode::I64RemS => if b == 0 {
            Err(ExecuteError::DivideByZero)
        } else {
            Ok(rem_s64(a, b))
        },
        Opcode::I64And => Ok(a & b),
        Opcode::I64Or => Ok(a | b),
        Opcode::I64Xor => Ok(a ^ b),
        Opcode::I64Shl => Ok(ux.wrapping_shl(k) as i64),
        Opcode::I64ShrU => Ok(ux.wrapping_shr(k) as i64),
        Opcode::I64ShrS => Ok(a.wrapping_shr(k)),
        Opcode::I64Rotl => Ok(rotate_left_64(ux, k % 64) as i64),
        Opcode::I64Rotr => Ok(rotate_right_64(ux, k % 64) as i64),
        _ => Ok(a),
    }
}

/// Applies a two-operand instruction to the cells `a` (pushed first) and
/// `b` (on top). An opcode that is no such instruction yields `a`.
pub fn binary(op: Opcode, a: i64, b: i64) -> (r: ExecuteResult<i64>)
    ensures
        r == binary_spec(op, a, b),
{
    match op {
        Opcode::I32Add | Opcode::I32Sub | Opcode::I32Mul | Opcode::I32DivU | Opcode::I32DivS
        | Opcode::I32RemU | Opcode::I32RemS | Opcode::I32And | Opcode::I32Or | Opcode::I32Xor
        | Opcode::I32Shl | Opcode::I32ShrU | Opcode::I32ShrS | Opcode::I32Rotl
        | Opcode::I32Rotr => binary_32(op, a, b),
        Opcode::I64Add | Opcode::I64Sub | Opcode::I64Mul | Opcode::I64DivU | Opcode::I64DivS
        | Opcode::I64RemU | Opcode::I64RemS | Opcode::I64And | Opcode::I64Or | Opcode::I64Xor
        | Opcode::I64Shl | Opcode::I64ShrU | Opcode::I64ShrS | Opcode::I64Rotl
        | Opcode::I64Rotr => binary_64(op, a, b),
        _ => Ok(a),
    }
}

/// Decides a comparison of the cells `a` (pushed first) and `b` (on top).
/// An opcode that is no comparison holds of nothing.
pub fn relational(op: Opcode, a: i64, b: i64) -> (r: bool)
    ensures
        r == relational_spec(op, a, b),
{
    proof {
        lemma_low_u32(a);
        lemma_low_u32(b);
        lemma_low_i32(a);
        lemma_low_i32(b);
        lemma_cell_u64(a);
        lemma_cell_u64(b);
    }
    match op {
        Opcode::I32Eq => (a as u32) == (b as u32),
        Opcode::I32Ne => (a as u32) != (b as u32),
        Opcode::I32LtU => (a as u32) < (b as u32),
        Opcode::I32LtS => (a as i32) < (b as i32),
        Opcode::I32LeU => (a as u32) <= (b as u32),
        Opcode::I32LeS => (a as i32) <= (b as i32),
        Opcode::I32GtU => (a as u32) > (b as u32),
        Opcode::I32GtS => (a as i32) > (b as i32),
        Opcode::I32GeU => (a as u32) >= (b as u32),
        Opcode::I32GeS => (a as i32) >= (b as i32),
        Opcode::I64Eq => a == b,
        Opcode::I64Ne => a != b,
        Opcode::I64LtU => (a as u64) < (b as u64),
        Opcode::I64LtS => a < b,
        Opcode::I64LeU => (a as u64) <= (b as u64),
        Opcode::I64LeS => a <= b,
        Opcode::I64GtU => (a as u64) > (b as u64),
        Opcode::I64GtS => a > b,
        Opcode::I64GeU => (a as u64) >= (b as u64),
        Opcode::I64GeS => a >= b,
        _ => false,
    }
}

/// Truncating a cell to a narrower width keeps the cell's unsigned value
/// modulo that width.
pub proof fn lemma_truncate(v: i64)
    ensures
        (v as u8) as int == wrap_u64(v as int) % 0x100,
        (v as u16) as int == wrap_u64(v as int) % 0x1_0000,
        (v as u32) as int == wrap_u64(v as int) % 0x1_0000_0000,
        (v as u64) as int == wrap_u64(v as int) % 0x1_0000_0000_0000_0000,
{
    assert((v as u8) as int == (v as int) % 0x100) by (bit_vector);
    assert((v as u16) as int == (v as int) % 0x1_0000) by (bit_vector);
    lemma_low_u32(v);
    lemma_cell_u64(v);
    vstd::arithmetic::div_mod::lemma_mod_mod(v as int, 0x100, 0x100_0000_0000_0000);
    vstd::arithmetic::div_mod::lemma_mod_mod(v as int, 0x1_0000, 0x1_0000_0000_0000);
    vstd::arithmetic::div_mod::lemma_mod_mod(v as int, 0x1_0000_0000, 0x1_0000_0000);
    vstd::arithmetic::div_mod::lemma_mod_twice(v as int, 0x1_0000_0000_0000_0000);
}

/// Reading a number as a signed 64-bit cell and that cell as an unsigned
/// number gives the number modulo `2^64`.
pub proof fn lemma_mod_of_wrap(x: int)
    ensures
        wrap_u64(wrap_i64(x)) == wrap_u64(x),
        -0x8000_0000_0000_0000 <= wrap_i64(x) < 0x8000_0000_0000_0000,
{
    let m = x % 0x1_0000_0000_0000_0000;
    lemma_mod_bound(x, 0x1_0000_0000_0000_0000);
    vstd::arithmetic::div_mod::lemma_mod_twice(x, 0x1_0000_0000_0000_0000);
    if m >= 0x8000_0000_0000_0000 {
        vstd::arithmetic::div_mod::lemma_mod_sub_multiples_vanish(m, 0x1_0000_0000_0000_0000);
    }
}

} // verus!
