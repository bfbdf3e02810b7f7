//! Bounds-checked little-endian access to linear memory.
//!
//! An access of `width` bytes at address `at` is in bounds when
//! `at + width <= len`; any other access fails with
//! [`ExecuteError::Bounds`] and touches nothing.
use crate::endian::le_bytes;
use crate::endian::le_value;
use crate::endian::lemma_le_bytes_len;
use crate::endian::lemma_le_round_trip;
use crate::endian::read_u16_le;
use crate::endian::read_u32_le;
use crate::endian::read_u64_le;
use crate::endian::write_u16_le;
use crate::endian::write_u32_le;
use crate::endian::write_u64_le;
use crate::error::ExecuteError;
use crate::error::ExecuteResult;
use vstd::prelude::*;
use vstd::slice::slice_subrange;

verus! {

/// Whether the range of `len` elements from `start` lies within a buffer
/// of `total` elements and starts inside it.
pub open spec fn in_bounds(total: nat, start: nat, len: nat) -> bool {
    start < total && start + len <= total
}

/// The number stored in the `width` bytes of `mem` from `at` on.
pub open spec fn load(mem: Seq<u8>, at: nat, width: nat) -> nat {
    le_value(mem.subrange(at as int, (at + width) as int))
}

/// `mem` with the `width` bytes from `at` on replaced by the encoding of
/// `v`.
pub open spec fn store(mem: Seq<u8>, at: nat, width: nat, v: nat) -> Seq<u8> {
    mem.subrange(0, at as int) + le_bytes(v, width) + mem.subrange(
        (at + width) as int,
        mem.len() as int,
    )
}

/// `mem` with the bytes from `at` on replaced by `data`.
pub open spec fn blit(mem: Seq<u8>, at: nat, data: Seq<u8>) -> Seq<u8> {
    mem.subrange(0, at as int) + data + mem.subrange((at + data.len()) as int, mem.len() as int)
}

/// A store changes no length.
pub proof fn lemma_store_len(mem: Seq<u8>, at: nat, width: nat, v: nat)
    requires
        at + width <= mem.len(),
    ensures
        store(mem, at, width, v).len() == mem.len(),
{
    lemma_le_bytes_len(v, width);
}

/// A load reads back what a store of the same width wrote at the same
/// address, reduced to that width.
pub proof fn lemma_load_after_store(mem: Seq<u8>, at: nat, width: nat, v: nat)
    requires
        at + width <= mem.len(),
    ensures
        load(store(mem, at, width, v), at, width) == v % crate::endian::radix(width),
{
    lemma_le_bytes_len(v, width);
    lemma_le_round_trip(v, width);
    assert(store(mem, at, width, v).subrange(at as int, (at + width) as int) =~= le_bytes(
        v,
        width,
    ));
}

/// A store leaves every byte outside its range as it was.
pub proof fn lemma_store_elsewhere(mem: Seq<u8>, at: nat, width: nat, v: nat, i: int)
    requires
        at + width <= mem.len(),
        0 <= i < mem.len(),
        i < at || i >= at + width,
    ensures
        store(mem, at, width, v)[i] == mem[i],
{
    lemma_le_bytes_len(v, width);
}

/// Accepts the range of `len` elements from `start` if it lies within
/// `target` and starts inside it.
pub fn bounds_check<T>(target: &[T], start: usize, len: usize) -> (r: ExecuteResult<()>)
    ensures
        match r {
            Ok(_) => in_bounds(target@.len(), start as nat, len as nat),
            Err(e) => e == ExecuteError::Bounds && !in_bounds(
                target@.len(),
                start as nat,
                len as nat,
            ),
        },
{
    if start >= target.len() || len > target.len() - start {
        Err(ExecuteError::Bounds)
    } else {
        Ok(())
    }
}

/// Reads the byte at `ra`.
pub fn read_u8(mem: &[u8], ra: usize) -> (r: ExecuteResult<u8>)
    ensures
        match r {
            Ok(v) => ra + 1 <= mem@.len() && v == load(mem@, ra as nat, 1),
            Err(e) => e == ExecuteError::Bounds && ra + 1 > mem@.len(),
        },
{
    bounds_check(mem, ra, 1)?;
    proof {
        reveal_with_fuel(le_value, 2);
        assert(mem@.subrange(ra as int, ra + 1).drop_first().len() == 0);
    }
    Ok(mem[ra])
}

/// Reads the two bytes from `ra` on as a little-endian `u16`.
pub fn read_u16(mem: &[u8], ra: usize) -> (r: ExecuteResult<u16>)
    ensures
        match r {
            Ok(v) => ra + 2 <= mem@.len() && v == load(mem@, ra as nat, 2),
            Err(e) => e == ExecuteError::Bounds && ra + 2 > mem@.len(),
        },
{
    bounds_check(mem, ra, 2)?;
    let tail = slice_subrange(mem, ra, mem.len());
    assert(tail@.subrange(0, 2) =~= mem@.subrange(ra as int, ra + 2));
    Ok(read_u16_le(tail))
}

/// Reads the four bytes from `ra` on as a little-endian `u32`.
pub fn read_u32(mem: &[u8], ra: usize) -> (r: ExecuteResult<u32>)
    ensures
        match r {
            Ok(v) => ra + 4 <= mem@.len() && v == load(mem@, ra as nat, 4),
            Err(e) => e == ExecuteError::Bounds && ra + 4 > mem@.len(),
        },
{
    bounds_check(mem, ra, 4)?;
    let tail = slice_subrange(mem, ra, mem.len());
    assert(tail@.subrange(0, 4) =~= mem@.subrange(ra as int, ra + 4));
    Ok(read_u32_le(tail))
}

/// Reads the eight bytes from `ra` on as a little-endian `u64`.
pub fn read_u64(mem: &[u8], ra: usize) -> (r: ExecuteResult<u64>)
    ensures
        match r {
            Ok(v) => ra + 8 <= mem@.len() && v == load(mem@, ra as nat, 8),
            Err(e) => e == ExecuteError::Bounds && ra + 8 > mem@.len(),
        },
{
    bounds_check(mem, ra, 8)?;
    let tail = slice_subrange(mem, ra, mem.len());
    assert(tail@.subrange(0, 8) =~= mem@.subrange(ra as int, ra + 8));
    Ok(read_u64_le(tail))
}

/// Stores `v` in the byte at `ra`.
pub fn write_u8(mem: &mut [u8], ra: usize, v: u8) -> (r: ExecuteResult<()>)
    ensures
        match r {
            Ok(_) => ra + 1 <= old(mem)@.len() && final(mem)@ == store(
                old(mem)@,
                ra as nat,
                1,
                v as nat,
            ),
            Err(e) => e == ExecuteError::Bounds && ra + 1 > old(mem)@.len() && final(mem)@ == old(
                mem,
            )@,
        },
{
    bounds_check(mem, ra, 1)?;
    mem[ra] = v;
    proof {
        reveal_with_fuel(le_bytes, 2);
        assert(mem@ =~= store(old(mem)@, ra as nat, 1, v as nat));
    }
    Ok(())
}

/// Stores `v` little-endian in the two bytes from `ra` on.
pub fn write_u16(mem: &mut [u8], ra: usize, v: u16) -> (r: ExecuteResult<()>)
    ensures
        match r {
            Ok(_) => ra + 2 <= old(mem)@.len() && final(mem)@ == store(
                old(mem)@,
                ra as nat,
                2,
                v as nat,
            ),
            Err(e) => e == ExecuteError::Bounds && ra + 2 > old(mem)@.len() && final(mem)@ == old(
                mem,
            )@,
        },
{
    bounds_check(mem, ra, 2)?;
    let (head, tail) = mem.split_at_mut(ra);
    write_u16_le(tail, v);
    proof {
        lemma_le_bytes_len(v as nat, 2);
        assert(head@ + tail@ =~= store(old(mem)@, ra as nat, 2, v as nat));
    }
    Ok(())
}

/// Stores `v` little-endian in the four bytes from `ra` on.
pub fn write_u32(mem: &mut [u8], ra: usize, v: u32) -> (r: ExecuteResult<()>)
    ensures
        match r {
            Ok(_) => ra + 4 <= old(mem)@.len() && final(mem)@ == store(
                old(mem)@,
                ra as nat,
                4,
                v as nat,
            ),
            Err(e) => e == ExecuteError::Bounds && ra + 4 > old(mem)@.len() && final(mem)@ == old(
                mem,
            )@,
        },
{
    bounds_check(mem, ra, 4)?;
    let (head, tail) = mem.split_at_mut(ra);
    write_u32_le(tail, v);
    proof {
        lemma_le_bytes_len(v as nat, 4);
        assert(head@ + tail@ =~= store(old(mem)@, ra as nat, 4, v as nat));
    }
    Ok(())
}

/// Stores `v` little-endian in the eight bytes from `ra` on.
pub fn write_u64(mem: &mut [u8], ra: usize, v: u64) -> (r: ExecuteResult<()>)
    ensures
        match r {
            Ok(_) => ra + 8 <= old(mem)@.len() && final(mem)@ == store(
                old(mem)@,
                ra as nat,
                8,
                v as nat,
            ),
            Err(e) => e == ExecuteError::Bounds && ra + 8 > old(mem)@.len() && final(mem)@ == old(
                mem,
            )@,
        },
{
    bounds_check(mem, ra, 8)?;
    let (head, tail) = mem.split_at_mut(ra);
    write_u64_le(tail, v);
    proof {
        lemma_le_bytes_len(v as nat, 8);
        assert(head@ + tail@ =~= store(old(mem)@, ra as nat, 8, v as nat));
    }
    Ok(())
}

/// Copies `data` into `mem` from `at` on.
pub fn copy_into(mem: &mut [u8], at: usize, data: &[u8])
    requires
        at + data@.len() <= old(mem)@.len(),
    ensures
        final(mem)@ == blit(old(mem)@, at as nat, data@),
{
    let n = data.len();
    let total = mem.len();
    let mut k: usize = 0;
    while k < n
        invariant
            k <= n,
            n == data@.len(),
            total == mem@.len(),
            at + n <= mem@.len(),
            mem@.len() == old(mem)@.len(),
            mem@ == blit(old(mem)@, at as nat, data@.take(k as int)),
        decreases n - k,
    {
        mem[at + k] = data[k];
        proof {
            assert(mem@ =~= blit(old(mem)@, at as nat, data@.take(k + 1)));
        }
        k += 1;
    }
    proof {
        assert(data@.take(n as int) =~= data@);
    }
}

} // verus!
