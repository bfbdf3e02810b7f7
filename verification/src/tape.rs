//! A tape: a buffer of fixed length with a cursor that moves over it.
//!
//! The same abstraction serves the instruction stream (a tape of bytes whose
//! cursor is the instruction pointer) and the operand and call stacks (tapes
//! of 64-bit cells whose cursor is the stack pointer).
use crate::endian::read_u32_le;
use crate::endian::read_u64_le;
use crate::endian::le_value;
use crate::error::ExecuteError;
use crate::error::ExecuteResult;
use vstd::prelude::*;
use vstd::slice::slice_subrange;

verus! {

/// What a tape is, mathematically: its cells and the position of its cursor.
pub struct TapeView<T> {
    pub cells: Seq<T>,
    pub pos: nat,
}

impl<T> TapeView<T> {
    /// The cursor lies within the buffer or just past its end.
    pub open spec fn wf(self) -> bool {
        self.pos <= self.cells.len()
    }

    /// How many cells lie at and after the cursor.
    pub open spec fn remaining(self) -> nat {
        (self.cells.len() - self.pos) as nat
    }

    /// The cells before the cursor: on a stack, the live ones.
    pub open spec fn live(self) -> Seq<T> {
        self.cells.take(self.pos as int)
    }

    /// The tape after `v` was written at the cursor and the cursor advanced.
    pub open spec fn push(self, v: T) -> Self {
        TapeView { cells: self.cells.update(self.pos as int, v), pos: self.pos + 1 }
    }

    /// The tape after the cursor stepped back over `n` cells.
    pub open spec fn pop(self, n: nat) -> Self {
        TapeView { cells: self.cells, pos: (self.pos - n) as nat }
    }

    /// The cell `depth` places below the cursor; `top(1)` is the last live one.
    pub open spec fn top(self, depth: nat) -> T {
        self.cells[self.pos - depth]
    }

    /// The tape with cell `at` replaced by `v`.
    pub open spec fn with_cell(self, at: int, v: T) -> Self {
        TapeView { cells: self.cells.update(at, v), pos: self.pos }
    }

    /// The tape after the cells of `s` were written from the cursor on and
    /// the cursor advanced past them.
    pub open spec fn write(self, s: Seq<T>) -> Self {
        TapeView {
            cells: Seq::new(
                self.cells.len(),
                |i: int|
                    if self.pos <= i < self.pos + s.len() {
                        s[i - self.pos]
                    } else {
                        self.cells[i]
                    },
            ),
            pos: self.pos + s.len(),
        }
    }
}

/// Writing nothing changes nothing.
pub proof fn lemma_write_empty<T>(t: TapeView<T>)
    ensures
        t.write(Seq::empty()) == t,
{
    assert(t.write(Seq::empty()).cells =~= t.cells);
}

/// Writing a sequence and then one more cell is writing the longer
/// sequence.
pub proof fn lemma_write_push<T>(t: TapeView<T>, s: Seq<T>, v: T)
    requires
        t.pos + s.len() < t.cells.len(),
    ensures
        t.write(s).push(v) == t.write(s.push(v)),
{
    assert(t.write(s).push(v).cells =~= t.write(s.push(v)).cells);
}

/// A buffer of fixed length with a cursor.
///
/// The cursor never leaves the range `0..=len`: every operation that would
/// move it out fails with [`ExecuteError::Bounds`] and moves nothing.
pub struct Tape<T> {
    data: Vec<T>,
    pos: usize,
}

impl<T> View for Tape<T> {
    type V = TapeView<T>;

    /// The cells and the cursor of the tape. The cursor of a tape lies
    /// within its buffer; the view says so of every value of the type, also
    /// of one that is only spoken of in a contract.
    closed spec fn view(&self) -> TapeView<T> {
        TapeView {
            cells: self.data@,
            pos: if self.pos <= self.data@.len() {
                self.pos as nat
            } else {
                self.data@.len()
            },
        }
    }
}

impl<T> From<Vec<T>> for Tape<T> {
    /// A tape over `data` with the cursor at the start.
    fn from(data: Vec<T>) -> (tape: Tape<T>)
        ensures
            tape@ == (TapeView { cells: data@, pos: 0 }),
    {
        Tape { data, pos: 0 }
    }
}

impl<T> vstd::std_specs::convert::FromSpecImpl<Vec<T>> for Tape<T> {
    open spec fn obeys_from_spec() -> bool {
        true
    }

    closed spec fn from_spec(data: Vec<T>) -> Tape<T> {
        Tape { data, pos: 0 }
    }
}

impl<T> Tape<T> {
    #[verifier::type_invariant]
    spec fn cursor_in_bounds(&self) -> bool {
        self.pos <= self.data@.len()
    }

    /// The cursor of any tape lies in `0..=len`.
    pub proof fn lemma_wf(&self)
        ensures
            self@.wf(),
    {
    }

    /// A tape made from a vector holds its elements and starts at 0.
    pub proof fn lemma_from(data: Vec<T>)
        ensures
            <Tape<T> as vstd::std_specs::convert::FromSpec<Vec<T>>>::from_spec(data)@ == (TapeView {
                cells: data@,
                pos: 0,
            }),
    {
    }

    /// Total length of the buffer.
    pub fn len(&self) -> (n: usize)
        ensures
            n == self@.cells.len(),
    {
        self.data.len()
    }

    /// Number of cells at and after the cursor.
    pub fn remaining(&self) -> (n: usize)
        ensures
            n == self@.remaining(),
            self@.wf(),
    {
        proof {
            use_type_invariant(self);
        }
        self.data.len() - self.pos
    }

    /// Returns the cell at the cursor and advances the cursor by one.
    pub fn next(&mut self) -> (r: ExecuteResult<&T>)
        ensures
            final(self)@.cells == old(self)@.cells,
            match r {
                Ok(v) => {
                    &&& old(self)@.pos < old(self)@.cells.len()
                    &&& *v == old(self)@.cells[old(self)@.pos as int]
                    &&& final(self)@.pos == old(self)@.pos + 1
                },
                Err(e) => {
                    &&& e == ExecuteError::Bounds
                    &&& old(self)@.pos >= old(self)@.cells.len()
                    &&& final(self)@.pos == old(self)@.pos
                },
            },
    {
        proof {
            use_type_invariant(&*self);
        }
        if self.data.len() - self.pos < 1 {
            Err(ExecuteError::Bounds)
        } else {
            let pos = self.pos;
            self.pos = pos + 1;
            Ok(&self.data[pos])
        }
    }

    /// Returns the `n` cells from the cursor on and advances the cursor
    /// past them.
    pub fn next_many(&mut self, n: usize) -> (r: ExecuteResult<&[T]>)
        ensures
            final(self)@.cells == old(self)@.cells,
            match r {
                Ok(s) => {
                    &&& n <= old(self)@.remaining()
                    &&& s@.len() == n
                    &&& s@ == old(self)@.cells.subrange(
                        old(self)@.pos as int,
                        old(self)@.pos + n,
                    )
                    &&& final(self)@.pos == old(self)@.pos + n
                },
                Err(e) => {
                    &&& e == ExecuteError::Bounds
                    &&& n > old(self)@.remaining()
                    &&& final(self)@.pos == old(self)@.pos
                },
            },
    {
        proof {
            use_type_invariant(&*self);
        }
        if self.data.len() - self.pos < n {
            Err(ExecuteError::Bounds)
        } else {
            let pos = self.pos;
            self.pos = pos + n;
            Ok(slice_subrange(self.data.as_slice(), pos, pos + n))
        }
    }

    /// Steps the cursor back by one and returns the cell it then stands on.
    pub fn prev(&mut self) -> (r: ExecuteResult<&T>)
        ensures
            final(self)@.cells == old(self)@.cells,
            match r {
                Ok(v) => {
                    &&& old(self)@.pos > 0
                    &&& *v == old(self)@.cells[old(self)@.pos - 1]
                    &&& final(self)@.pos == old(self)@.pos - 1
                },
                Err(e) => {
                    &&& e == ExecuteError::Bounds
                    &&& old(self)@.pos == 0
                    &&& final(self)@.pos == 0
                },
            },
    {
        proof {
            use_type_invariant(&*self);
        }
        if self.pos == 0 {
            Err(ExecuteError::Bounds)
        } else {
            let pos = self.pos - 1;
            self.pos = pos;
            Ok(&self.data[pos])
        }
    }

    /// Returns the `n` cells before the cursor and steps the cursor back
    /// over them.
    pub fn prev_many(&mut self, n: usize) -> (r: ExecuteResult<&[T]>)
        ensures
            final(self)@.cells == old(self)@.cells,
            match r {
                Ok(s) => {
                    &&& n <= old(self)@.pos
                    &&& s@.len() == n
                    &&& s@ == old(self)@.cells.subrange(
                        old(self)@.pos - n,
                        old(self)@.pos as int,
                    )
                    &&& final(self)@.pos == old(self)@.pos - n
                },
                Err(e) => {
                    &&& e == ExecuteError::Bounds
                    &&& n > old(self)@.pos
                    &&& final(self)@.pos == old(self)@.pos
                },
            },
    {
        proof {
            use_type_invariant(&*self);
        }
        let pos = self.pos;
        if n > pos {
            Err(ExecuteError::Bounds)
        } else {
            self.pos = pos - n;
            Ok(slice_subrange(self.data.as_slice(), pos - n, pos))
        }
    }

    /// Returns the `n` cells before the cursor and leaves the cursor alone.
    pub fn tail_many(&self, n: usize) -> (r: ExecuteResult<&[T]>)
        ensures
            match r {
                Ok(s) => {
                    &&& n <= self@.pos
                    &&& s@.len() == n
                    &&& s@ == self@.cells.subrange(self@.pos - n, self@.pos as int)
                },
                Err(e) => e == ExecuteError::Bounds && n > self@.pos,
            },
    {
        proof {
            use_type_invariant(self);
        }
        let pos = self.pos;
        if n > pos {
            Err(ExecuteError::Bounds)
        } else {
            Ok(slice_subrange(self.data.as_slice(), pos - n, pos))
        }
    }

    /// Returns the cell at the absolute index `at`.
    pub fn at(&self, at: usize) -> (r: ExecuteResult<&T>)
        ensures
            match r {
                Ok(v) => at < self@.cells.len() && *v == self@.cells[at as int],
                Err(e) => e == ExecuteError::Bounds && at >= self@.cells.len(),
            },
    {
        if at < self.data.len() {
            Ok(&self.data[at])
        } else {
            Err(ExecuteError::Bounds)
        }
    }

    /// The position of the cursor.
    pub fn get_pos(&self) -> (pos: usize)
        ensures
            pos == self@.pos,
            pos <= self@.cells.len(),
            self@.cells.len() <= usize::MAX,
    {
        proof {
            use_type_invariant(self);
            assert(self.data@.len() == self.data.len());
        }
        self.pos
    }

    /// Moves the cursor to `pos`, which may be any index up to and
    /// including the length.
    pub fn set_pos(&mut self, pos: usize) -> (r: ExecuteResult<()>)
        ensures
            final(self)@.cells == old(self)@.cells,
            match r {
                Ok(_) => pos <= old(self)@.cells.len() && final(self)@.pos == pos,
                Err(e) => {
                    &&& e == ExecuteError::Bounds
                    &&& pos > old(self)@.cells.len()
                    &&& final(self)@.pos == old(self)@.pos
                },
            },
    {
        proof {
            use_type_invariant(&*self);
        }
        if pos <= self.data.len() {
            self.pos = pos;
            Ok(())
        } else {
            Err(ExecuteError::Bounds)
        }
    }

    /// Stores `v` in the cell at the cursor and advances the cursor by one.
    pub fn write_next(&mut self, v: T) -> (r: ExecuteResult<()>)
        ensures
            match r {
                Ok(_) => old(self)@.pos < old(self)@.cells.len() && final(self)@ == old(self)@.push(
                    v,
                ),
                Err(e) => {
                    &&& e == ExecuteError::Bounds
                    &&& old(self)@.pos >= old(self)@.cells.len()
                    &&& final(self)@ == old(self)@
                },
            },
    {
        proof {
            use_type_invariant(&*self);
        }
        if self.data.len() - self.pos < 1 {
            Err(ExecuteError::Bounds)
        } else {
            let pos = self.pos;
            self.data[pos] = v;
            self.pos = pos + 1;
            Ok(())
        }
    }

    /// Stores `v` in the cell at the absolute index `at`.
    pub fn write_at(&mut self, at: usize, v: T) -> (r: ExecuteResult<()>)
        ensures
            match r {
                Ok(_) => at < old(self)@.cells.len() && final(self)@ == old(self)@.with_cell(
                    at as int,
                    v,
                ),
                Err(e) => {
                    &&& e == ExecuteError::Bounds
                    &&& at >= old(self)@.cells.len()
                    &&& final(self)@ == old(self)@
                },
            },
    {
        proof {
            use_type_invariant(&*self);
        }
        if at < self.data.len() {
            self.data[at] = v;
            Ok(())
        } else {
            Err(ExecuteError::Bounds)
        }
    }
}

/// Little-endian reads of multibyte integers from a tape of bytes.
pub trait TapeU8: View<V = TapeView<u8>> {
    /// Reads four bytes as a `u32` and advances past them.
    fn next_u32(&mut self) -> (r: ExecuteResult<u32>)
        ensures
            final(self)@.cells == old(self)@.cells,
            match r {
                Ok(v) => {
                    &&& 4 <= old(self)@.remaining()
                    &&& v == le_value(
                        old(self)@.cells.subrange(old(self)@.pos as int, old(self)@.pos + 4 as int),
                    )
                    &&& final(self)@.pos == old(self)@.pos + 4
                },
                Err(e) => {
                    &&& e == ExecuteError::Bounds
                    &&& 4 > old(self)@.remaining()
                    &&& final(self)@.pos == old(self)@.pos
                },
            },
    ;

    /// Reads eight bytes as a `u64` and advances past them.
    fn next_u64(&mut self) -> (r: ExecuteResult<u64>)
        ensures
            final(self)@.cells == old(self)@.cells,
            match r {
                Ok(v) => {
                    &&& 8 <= old(self)@.remaining()
                    &&& v == le_value(
                        old(self)@.cells.subrange(old(self)@.pos as int, old(self)@.pos + 8 as int),
                    )
                    &&& final(self)@.pos == old(self)@.pos + 8
                },
                Err(e) => {
                    &&& e == ExecuteError::Bounds
                    &&& 8 > old(self)@.remaining()
                    &&& final(self)@.pos == old(self)@.pos
                },
            },
    ;
}

impl TapeU8 for Tape<u8> {
    fn next_u32(&mut self) -> (r: ExecuteResult<u32>) {
        proof {
            use_type_invariant(&*self);
        }
        if self.data.len() - self.pos < 4 {
            Err(ExecuteError::Bounds)
        } else {
            let pos = self.pos;
            let bytes = slice_subrange(self.data.as_slice(), pos, pos + 4);
            assert(bytes@.subrange(0, 4) =~= bytes@);
            let v = read_u32_le(bytes);
            self.pos = pos + 4;
            Ok(v)
        }
    }

    fn next_u64(&mut self) -> (r: ExecuteResult<u64>) {
        proof {
            use_type_invariant(&*self);
        }
        if self.data.len() - self.pos < 8 {
            Err(ExecuteError::Bounds)
        } else {
            let pos = self.pos;
            let bytes = slice_subrange(self.data.as_slice(), pos, pos + 8);
            assert(bytes@.subrange(0, 8) =~= bytes@);
            let v = read_u64_le(bytes);
            self.pos = pos + 8;
            Ok(v)
        }
    }
}

} // verus!
