//! The contract between the machine and the host that embeds it.
//!
//! The host owns every mutable resource of a run: linear memory, the slot
//! array, the operand stack and the call stack. The machine reaches them
//! only through an [`Environment`].
use crate::error::ExecuteError;
use crate::error::ExecuteResult;
use crate::module::Opcode;
use crate::tape::Tape;
use crate::tape::TapeView;
use vstd::prelude::*;

verus! {

/// The resources of a run, as the guest can observe them.
pub struct Resources {
    /// Byte-addressable linear memory.
    pub memory: Seq<u8>,
    /// The slot array.
    pub slots: Seq<i64>,
    /// The operand stack; its cursor is the stack pointer.
    pub stack: TapeView<i64>,
    /// The call stack, a sequence of frames `locals, N, return_ip`.
    pub call_stack: TapeView<i64>,
}

/// `n` zero bytes.
pub open spec fn zero_bytes(n: nat) -> Seq<u8> {
    Seq::new(n, |i: int| 0u8)
}

/// `n` zero cells.
pub open spec fn zero_cells(n: nat) -> Seq<i64> {
    Seq::new(n, |i: int| 0i64)
}

/// What the embedder supplies to a machine.
///
/// The four ghost accessors say what the guest can observe of the host;
/// the contracts of the executable methods are stated over them. A method
/// that hands out one resource leaves the other three as they were.
///
/// A host that offers native functions, or that may abort a run when it
/// is asked before an instruction, says so of its type through
/// `has_native_functions` and `watches_opcodes`; of a host that says
/// neither, the machine knows that `NativeInvoke` is rejected and that no
/// instruction is held back. A host whose answer to a request for memory
/// or for new slots depends on nothing but the request says which answer
/// it gives through `growth_answer` and `reset_answer`; of such a host
/// the machine knows what `GrowMemory` and `ResetSlots` lead to.
///
/// The machine is proved correct against these contracts. For an
/// environment that is itself verified they are proof obligations; of any
/// other environment they are assumed.
pub trait Environment: Sized {
    /// Linear memory.
    spec fn memory(&self) -> Seq<u8>;

    /// The slot array.
    spec fn slots(&self) -> Seq<i64>;

    /// The operand stack.
    spec fn stack(&self) -> Tape<i64>;

    /// The call stack.
    spec fn call_stack(&self) -> Tape<i64>;

    /// Linear memory, to read.
    fn get_memory(&self) -> (m: &[u8])
        ensures
            m@ == self.memory(),
    ;

    /// Linear memory, to write. The length of the buffer is fixed while
    /// it is lent out.
    fn get_memory_mut(&mut self) -> (m: &mut [u8])
        ensures
            m@ == old(self).memory(),
            final(self).memory() == final(m)@,
            final(self).slots() == old(self).slots(),
            final(self).stack() == old(self).stack(),
            final(self).call_stack() == old(self).call_stack(),
    ;

    /// What hosts of this type answer when they are asked to extend a
    /// memory of `len` bytes by `len_inc` bytes: `Ok` if they agree, the
    /// error if they refuse, and `None` where the type does not settle the
    /// answer. A host settles nothing unless its type says otherwise.
    open spec fn growth_answer(len: nat, len_inc: nat) -> Option<ExecuteResult<()>> {
        None
    }

    /// What hosts of this type answer when they are asked for `len` new
    /// slots: `Ok` if they agree, the error if they refuse, and `None`
    /// where the type does not settle the answer. A host settles nothing
    /// unless its type says otherwise.
    open spec fn reset_answer(len: nat) -> Option<ExecuteResult<()>> {
        None
    }

    /// Extends memory by `len_inc` zero bytes, or refuses. Where the type
    /// of the host settles the answer, that answer is given, and a refusal
    /// changes nothing.
    fn grow_memory(&mut self, len_inc: usize) -> (r: ExecuteResult<()>)
        ensures
            r is Ok ==> {
                &&& final(self).memory() == old(self).memory() + zero_bytes(len_inc as nat)
                &&& final(self).slots() == old(self).slots()
                &&& final(self).stack() == old(self).stack()
                &&& final(self).call_stack() == old(self).call_stack()
            },
            match Self::growth_answer(old(self).memory().len(), len_inc as nat) {
                Some(answer) => {
                    &&& r == answer
                    &&& r is Err ==> {
                        &&& final(self).memory() == old(self).memory()
                        &&& final(self).slots() == old(self).slots()
                        &&& final(self).stack() == old(self).stack()
                        &&& final(self).call_stack() == old(self).call_stack()
                    }
                },
                None => true,
            },
    ;

    /// The slot array, to read.
    fn get_slots(&self) -> (s: &[i64])
        ensures
            s@ == self.slots(),
    ;

    /// The slot array, to write.
    fn get_slots_mut(&mut self) -> (s: &mut [i64])
        ensures
            s@ == old(self).slots(),
            final(self).slots() == final(s)@,
            final(self).memory() == old(self).memory(),
            final(self).stack() == old(self).stack(),
            final(self).call_stack() == old(self).call_stack(),
    ;

    /// Replaces the slot array by `len` zero cells, or refuses. Where the
    /// type of the host settles the answer, that answer is given, and a
    /// refusal changes nothing.
    fn reset_slots(&mut self, len: usize) -> (r: ExecuteResult<()>)
        ensures
            r is Ok ==> {
                &&& final(self).slots() == zero_cells(len as nat)
                &&& final(self).memory() == old(self).memory()
                &&& final(self).stack() == old(self).stack()
                &&& final(self).call_stack() == old(self).call_stack()
            },
            match Self::reset_answer(len as nat) {
                Some(answer) => {
                    &&& r == answer
                    &&& r is Err ==> {
                        &&& final(self).memory() == old(self).memory()
                        &&& final(self).slots() == old(self).slots()
                        &&& final(self).stack() == old(self).stack()
                        &&& final(self).call_stack() == old(self).call_stack()
                    }
                },
                None => true,
            },
    ;

    /// The operand stack, to read.
    fn get_stack(&self) -> (t: &Tape<i64>)
        ensures
            *t == self.stack(),
    ;

    /// The operand stack, to push and pop.
    fn get_stack_mut(&mut self) -> (t: &mut Tape<i64>)
        ensures
            *t == old(self).stack(),
            final(self).stack() == *final(t),
            final(self).memory() == old(self).memory(),
            final(self).slots() == old(self).slots(),
            final(self).call_stack() == old(self).call_stack(),
    ;

    /// The call stack, to read.
    fn get_call_stack(&self) -> (t: &Tape<i64>)
        ensures
            *t == self.call_stack(),
    ;

    /// The call stack, to push and pop.
    fn get_call_stack_mut(&mut self) -> (t: &mut Tape<i64>)
        ensures
            *t == old(self).call_stack(),
            final(self).call_stack() == *final(t),
            final(self).memory() == old(self).memory(),
            final(self).slots() == old(self).slots(),
            final(self).stack() == old(self).stack(),
    ;

    /// Whether hosts of this type offer native functions to the guest. A
    /// host offers none unless its type says otherwise.
    open spec fn has_native_functions() -> bool {
        false
    }

    /// Whether hosts of this type may abort a run when they are asked
    /// before an instruction. A host lets every instruction pass unless
    /// its type says otherwise.
    open spec fn watches_opcodes() -> bool {
        false
    }

    /// Runs the host function `id` for the guest. It may return one value
    /// for the operand stack, or none. A host without native functions
    /// rejects every call and changes nothing.
    fn do_native_invoke(&mut self, _id: usize) -> (r: ExecuteResult<Option<i64>>)
        ensures
            !Self::has_native_functions() ==> {
                &&& r == Err::<Option<i64>, ExecuteError>(ExecuteError::InvalidNativeInvoke)
                &&& final(self).memory() == old(self).memory()
                &&& final(self).slots() == old(self).slots()
                &&& final(self).stack() == old(self).stack()
                &&& final(self).call_stack() == old(self).call_stack()
            },
    {
        Err(ExecuteError::InvalidNativeInvoke)
    }

    /// Told of each initializer record after it was copied into memory.
    fn trace_mem_init(&self, _start: usize, _data: &[u8]) {
    }

    /// Asked before each instruction; an error aborts the run. This is
    /// where a host accounts for steps. A host that does not watch the
    /// opcodes lets every instruction pass.
    fn trace_opcode(&self, _op: &Opcode) -> (r: ExecuteResult<()>)
        ensures
            !Self::watches_opcodes() ==> r is Ok,
    {
        Ok(())
    }

    /// Told of each call, after the target and the number of extra locals
    /// were popped.
    fn trace_call(&self, _target: usize, _n_locals: usize) {
    }

    /// Told of each load that succeeded.
    fn trace_load(&self, _offset: usize, _addr: usize, _val: u64) {
    }
}

/// What the type of a host says of itself.
pub struct HostKind {
    /// Whether the host offers native functions.
    pub native_functions: bool,
    /// Whether the host may abort a run when asked before an instruction.
    pub watches_opcodes: bool,
    /// The answer to a request to extend a memory of the first length by
    /// the second, where it is settled.
    pub growth_answer: spec_fn(nat, nat) -> Option<ExecuteResult<()>>,
    /// The answer to a request for that many new slots, where it is
    /// settled.
    pub reset_answer: spec_fn(nat) -> Option<ExecuteResult<()>>,
}

/// What the hosts of type `E` say of themselves.
pub open spec fn host_kind<E: Environment>() -> HostKind {
    HostKind {
        native_functions: E::has_native_functions(),
        watches_opcodes: E::watches_opcodes(),
        growth_answer: |len: nat, len_inc: nat| E::growth_answer(len, len_inc),
        reset_answer: |len: nat| E::reset_answer(len),
    }
}

/// The resources that `env` holds.
pub open spec fn resources<E: Environment>(env: &E) -> Resources {
    Resources {
        memory: env.memory(),
        slots: env.slots(),
        stack: env.stack()@,
        call_stack: env.call_stack()@,
    }
}

/// Both stacks of any environment have their cursors within bounds.
pub proof fn lemma_resources_wf<E: Environment>(env: &E)
    ensures
        resources(env).stack.wf(),
        resources(env).call_stack.wf(),
{
    env.stack().lemma_wf();
    env.call_stack().lemma_wf();
}

/// An environment that keeps its resources in buffers of its own and has
/// no native functions and no tracing.
///
/// Memory grows as far as the address space allows, and the slot array
/// is reset to whatever length is asked for.
pub struct BufferEnvironment {
    mem: Vec<u8>,
    slot_cells: Vec<i64>,
    operands: Tape<i64>,
    frames: Tape<i64>,
}

impl BufferEnvironment {
    /// An environment with zeroed memory of `memory_len` bytes, `slots_len`
    /// zeroed slots, and empty stacks of the given capacities.
    pub fn new(memory_len: usize, slots_len: usize, stack_len: usize, call_stack_len: usize) -> (env:
        BufferEnvironment)
        ensures
            env.memory() == zero_bytes(memory_len as nat),
            env.slots() == zero_cells(slots_len as nat),
            env.stack()@ == (TapeView { cells: zero_cells(stack_len as nat), pos: 0 }),
            env.call_stack()@ == (TapeView { cells: zero_cells(call_stack_len as nat), pos: 0 }),
    {
        let mem = vec![0u8; memory_len];
        let slot_cells = vec![0i64; slots_len];
        let stack_cells = vec![0i64; stack_len];
        let frame_cells = vec![0i64; call_stack_len];
        proof {
            assert(mem@ =~= zero_bytes(memory_len as nat));
            assert(slot_cells@ =~= zero_cells(slots_len as nat));
            assert(stack_cells@ =~= zero_cells(stack_len as nat));
            assert(frame_cells@ =~= zero_cells(call_stack_len as nat));
        }
        BufferEnvironment {
            mem,
            slot_cells,
            operands: Tape::from(stack_cells),
            frames: Tape::from(frame_cells),
        }
    }
}

impl BufferEnvironment {
    /// Memory is a buffer, and no buffer is longer than `usize::MAX`: so a
    /// growth by nothing is never refused.
    pub proof fn lemma_memory_fits(&self)
        ensures
            self.memory().len() <= usize::MAX,
            Self::growth_answer(self.memory().len(), 0) == Some(Ok::<(), ExecuteError>(())),
    {
        assert(self.mem.len() == self.mem@.len());
    }
}

impl Environment for BufferEnvironment {
    closed spec fn memory(&self) -> Seq<u8> {
        self.mem@
    }

    closed spec fn slots(&self) -> Seq<i64> {
        self.slot_cells@
    }

    closed spec fn stack(&self) -> Tape<i64> {
        self.operands
    }

    closed spec fn call_stack(&self) -> Tape<i64> {
        self.frames
    }

    /// Growth is refused, with `MemoryLimit`, exactly where memory would
    /// become longer than any buffer can be.
    open spec fn growth_answer(len: nat, len_inc: nat) -> Option<ExecuteResult<()>> {
        Some(
            if len + len_inc > usize::MAX {
                Err(ExecuteError::MemoryLimit)
            } else {
                Ok(())
            },
        )
    }

    /// A reset of the slots is never refused.
    open spec fn reset_answer(len: nat) -> Option<ExecuteResult<()>> {
        Some(Ok(()))
    }

    fn get_memory(&self) -> (m: &[u8]) {
        self.mem.as_slice()
    }

    fn get_memory_mut(&mut self) -> (m: &mut [u8]) {
        self.mem.as_mut_slice()
    }

    /// Appends `len_inc` zero bytes, unless memory would then be longer
    /// than any buffer can be: that is refused, and nothing changes.
    fn grow_memory(&mut self, len_inc: usize) -> (r: ExecuteResult<()>)
        ensures
            old(self).memory().len() <= usize::MAX,
            match r {
                Ok(_) => old(self).memory().len() + len_inc <= usize::MAX,
                Err(e) => {
                    &&& e == ExecuteError::MemoryLimit
                    &&& old(self).memory().len() + len_inc > usize::MAX
                    &&& final(self).memory() == old(self).memory()
                    &&& final(self).slots() == old(self).slots()
                    &&& final(self).stack() == old(self).stack()
                    &&& final(self).call_stack() == old(self).call_stack()
                },
            },
    {
        match self.mem.len().checked_add(len_inc) {
            Some(len) => {
                let ghost before = self.mem@;
                self.mem.resize(len, 0u8);
                proof {
                    assert(self.mem@ =~= before + zero_bytes(len_inc as nat));
                }
                Ok(())
            },
            None => Err(ExecuteError::MemoryLimit),
        }
    }

    fn get_slots(&self) -> (s: &[i64]) {
        self.slot_cells.as_slice()
    }

    fn get_slots_mut(&mut self) -> (s: &mut [i64]) {
        self.slot_cells.as_mut_slice()
    }

    /// Replaces the slots by `len` zero cells; this host never refuses.
    fn reset_slots(&mut self, len: usize) -> (r: ExecuteResult<()>)
        ensures
            r is Ok,
    {
        self.slot_cells = vec![0i64; len];
        proof {
            assert(self.slot_cells@ =~= zero_cells(len as nat));
        }
        Ok(())
    }

    fn get_stack(&self) -> (t: &Tape<i64>) {
        &self.operands
    }

    fn get_stack_mut(&mut self) -> (t: &mut Tape<i64>) {
        &mut self.operands
    }

    fn get_call_stack(&self) -> (t: &Tape<i64>) {
        &self.frames
    }

    fn get_call_stack_mut(&mut self) -> (t: &mut Tape<i64>) {
        &mut self.frames
    }
}

} // verus!
