//! Laws of the instruction set, proved of the semantics.
use crate::endian::lemma_radix_values;
use crate::environment::zero_bytes;
use crate::environment::zero_cells;
use crate::environment::HostKind;
use crate::error::ExecuteError;
use crate::error::ExecuteResult;
use crate::memory::lemma_load_after_store;
use crate::memory::lemma_store_len;
use crate::module::Opcode;
use crate::numeric::binary_spec;
use crate::numeric::lemma_mod_of_wrap;
use crate::numeric::lemma_wrap_i32_residue;
use crate::numeric::lemma_wrap_i64_fixed;
use crate::numeric::unary_spec;
use crate::numeric::wrap_i32;
use crate::semantics::access_width;
use crate::semantics::call_frame;
use crate::semantics::call_spec;
use crate::semantics::cell_of;
use crate::semantics::cell_u32;
use crate::semantics::cell_u64;
use crate::semantics::dup_spec;
use crate::semantics::execute_spec;
use crate::semantics::grow_memory_spec;
use crate::semantics::has_bytes;
use crate::semantics::imm_u32;
use crate::semantics::is_load;
use crate::semantics::is_store;
use crate::semantics::jmp_table_spec;
use crate::semantics::load_spec;
use crate::semantics::real_addr;
use crate::semantics::reset_slots_spec;
use crate::semantics::return_spec;
use crate::semantics::select_spec;
use crate::semantics::step_spec;
use crate::semantics::store_spec;
use crate::semantics::swap2_spec;
use crate::semantics::get_local_spec;
use crate::semantics::set_local_spec;
use crate::semantics::jmp_spec;
use crate::semantics::jmp_if_spec;
use crate::semantics::jmp_either_spec;
use crate::semantics::i32_const_spec;
use crate::semantics::i64_const_spec;
use crate::semantics::get_slot_spec;
use crate::semantics::get_slot_indirect_spec;
use crate::semantics::set_slot_spec;
use crate::semantics::native_invoke_spec;
use crate::semantics::unary_op_spec;
use crate::semantics::binary_op_spec;
use crate::semantics::relational_op_spec;
use crate::semantics::Machine;
use crate::semantics::Outcome;
use crate::vm::execute_post;
use crate::vm::is_run;
use crate::vm::last_result;
use crate::vm::run_post;
use crate::vm::step_post;
use crate::vm::Control;
use vstd::prelude::*;

verus! {

/// A cell made of a number below `2^64` reads back as that number.
pub proof fn lemma_cell_round_trip(x: nat)
    requires
        x < 0x1_0000_0000_0000_0000,
    ensures
        cell_u64(cell_of(x as int)) == x,
{
    lemma_mod_of_wrap(x as int);
    vstd::arithmetic::div_mod::lemma_small_mod(x, 0x1_0000_0000_0000_0000);
}

/// A load succeeds exactly if the bytes it reads lie within memory, given
/// that its immediate and its address operand are there. One that fails
/// has read its immediate and taken its operand, and changed nothing
/// else.
pub proof fn lemma_load_in_bounds(code: Seq<u8>, op: Opcode, m: Machine)
    requires
        is_load(op),
        has_bytes(code, m.ip, 4),
        m.stack().pos >= 1,
    ensures
        load_spec(code, op, m) is Continue <==> real_addr(code, m, m.stack().top(1))
            + access_width(op) <= m.memory().len(),
        !(load_spec(code, op, m) is Continue) ==> load_spec(code, op, m) == Outcome::Fault(
            ExecuteError::Bounds,
            m.skip(4).popped(1),
        ),
{
}

/// A store succeeds exactly if the bytes it writes lie within memory, given
/// that its immediate and its two operands are there. One that fails has
/// read its immediate and taken its operands, and changed nothing else:
/// memory is as it was.
pub proof fn lemma_store_in_bounds(code: Seq<u8>, op: Opcode, m: Machine)
    requires
        is_store(op),
        has_bytes(code, m.ip, 4),
        m.stack().pos >= 2,
    ensures
        store_spec(code, op, m) is Continue <==> real_addr(code, m, m.stack().top(2))
            + access_width(op) <= m.memory().len(),
        !(store_spec(code, op, m) is Continue) ==> store_spec(code, op, m) == Outcome::Fault(
            ExecuteError::Bounds,
            m.skip(4).popped(2),
        ),
{
}

/// `Return` undoes `Call`: whatever the callee did to the operand stack
/// and to memory, if the call stack is as `Call` left it, `Return` puts
/// the cursor of the call stack back where it was before the call and
/// continues just behind the immediate of `Call`. `Call` itself takes
/// the arguments and the two cells of metadata off the operand stack.
pub proof fn lemma_call_then_return(code: Seq<u8>, m: Machine, called: Machine, callee: Machine)
    requires
        m.wf(),
        code.len() <= usize::MAX,
        m.call_stack().cells.len() <= usize::MAX,
        call_spec(code, m) == Outcome::Continue(called),
        callee.call_stack() == called.call_stack(),
    ensures
        called.stack().pos == m.stack().pos - (imm_u32(code, m.ip) + 2),
        return_spec(code, callee) is Continue,
        return_spec(code, callee)->Continue_0.ip == m.ip + 4,
        return_spec(code, callee)->Continue_0.call_stack().pos == m.call_stack().pos,
        return_spec(code, callee)->Continue_0.stack() == callee.stack(),
{
    let n_args = imm_u32(code, m.ip);
    let n_locals = cell_u64(m.stack().top(1));
    let s = m.stack();
    let cs = m.call_stack();
    let args = s.cells.subrange(s.pos - 2 - n_args, s.pos - 2);
    let frame = call_frame(args, n_locals, m.ip + 4);
    let after = cs.write(frame);
    assert(frame.len() == n_args + n_locals + 2);
    assert(after.top(1) == frame[(n_args + n_locals + 1) as int]);
    assert(after.top(2) == frame[(n_args + n_locals) as int]);
    assert(frame[(n_args + n_locals + 1) as int] == cell_of((m.ip + 4) as int));
    assert(frame[(n_args + n_locals) as int] == cell_of((n_args + n_locals) as int));
    lemma_cell_round_trip(m.ip + 4);
    lemma_cell_round_trip(n_args + n_locals);
}

/// Whether two machines differ at most in the reserve of the operand stack:
/// the cells at and above the stack pointer.
pub open spec fn same_live_state(a: Machine, b: Machine) -> bool {
    &&& a.ip == b.ip
    &&& a.fuse == b.fuse
    &&& a.memory() == b.memory()
    &&& a.slots() == b.slots()
    &&& a.call_stack() == b.call_stack()
    &&& a.stack().pos == b.stack().pos
    &&& a.stack().cells.len() == b.stack().cells.len()
    &&& a.stack().live() == b.stack().live()
}

/// `Dup` and then `Drop` change nothing that is live.
pub proof fn lemma_dup_then_drop(code: Seq<u8>, m: Machine, dupped: Machine)
    requires
        m.wf(),
        dup_spec(m) == Outcome::Continue(dupped),
    ensures
        execute_spec(code, Opcode::Drop, dupped) is Continue,
        same_live_state(execute_spec(code, Opcode::Drop, dupped)->Continue_0, m),
{
    let dropped = execute_spec(code, Opcode::Drop, dupped)->Continue_0;
    assert(dropped.stack().live() =~= m.stack().live());
}

/// `Swap2` twice changes nothing.
pub proof fn lemma_swap2_twice(m: Machine, swapped: Machine)
    requires
        m.wf(),
        swap2_spec(m) == Outcome::Continue(swapped),
    ensures
        swap2_spec(swapped) == Outcome::Continue(m),
{
    let again = swap2_spec(swapped)->Continue_0;
    assert(again.stack().cells =~= m.stack().cells);
}

/// `Select` on the operands `val1`, `val2`, `cond` (pushed in this order)
/// leaves `val1` if `cond` is not zero and `val2` if it is.
pub proof fn lemma_select(m: Machine)
    requires
        m.wf(),
        m.stack().pos >= 3,
    ensures
        select_spec(m) is Continue,
        select_spec(m)->Continue_0.stack().pos == m.stack().pos - 2,
        select_spec(m)->Continue_0.stack().top(1) == if m.stack().top(1) != 0 {
            m.stack().top(3)
        } else {
            m.stack().top(2)
        },
{
}

/// What `I32Store` wrote, `I32Load` reads back from the same address: the
/// low 32 bits of the value stored.
pub proof fn lemma_i32_store_then_load(
    code: Seq<u8>,
    m: Machine,
    stored: Machine,
    code2: Seq<u8>,
    loader: Machine,
)
    requires
        store_spec(code, Opcode::I32Store, m) == Outcome::Continue(stored),
        loader.wf(),
        loader.memory() == stored.memory(),
        has_bytes(code2, loader.ip, 4),
        loader.stack().pos >= 1,
        real_addr(code2, loader, loader.stack().top(1)) == real_addr(code, m, m.stack().top(2)),
    ensures
        load_spec(code2, Opcode::I32Load, loader) is Continue,
        load_spec(code2, Opcode::I32Load, loader)->Continue_0.stack().top(1) == cell_u32(
            m.stack().top(1),
        ),
{
    let at = real_addr(code, m, m.stack().top(2));
    let v = cell_u64(m.stack().top(1)) % crate::endian::radix(4);
    lemma_radix_values();
    lemma_store_len(m.memory(), at, 4, v);
    lemma_load_after_store(m.memory(), at, 4, v);
    vstd::arithmetic::div_mod::lemma_mod_twice(
        cell_u64(m.stack().top(1)) as int,
        0x1_0000_0000,
    );
    vstd::arithmetic::div_mod::lemma_mod_mod(
        m.stack().top(1) as int,
        0x1_0000_0000,
        0x1_0000_0000,
    );
    lemma_wrap_i64_fixed(v as int);
}

/// `I64ExtendI32S` after `I32WrapI64` is the sign extension of the low 32
/// bits.
pub proof fn lemma_wrap_then_extend(x: i64)
    ensures
        unary_spec(Opcode::I64ExtendI32S, unary_spec(Opcode::I32WrapI64, x)) == wrap_i32(
            x as int,
        ),
{
    lemma_wrap_i32_residue(x as int);
    vstd::arithmetic::div_mod::lemma_mod_twice(x as int, 0x1_0000_0000);
}

/// `I32Add` is addition modulo `2^32`, read as a signed 32-bit number.
pub proof fn lemma_i32_add(a: i64, b: i64)
    ensures
        binary_spec(Opcode::I32Add, a, b) is Ok,
        -0x8000_0000 <= binary_spec(Opcode::I32Add, a, b)->Ok_0 < 0x8000_0000,
        (binary_spec(Opcode::I32Add, a, b)->Ok_0 as int) % 0x1_0000_0000 == (a + b)
            % 0x1_0000_0000,
{
    lemma_wrap_i32_residue(a + b);
}

/// Without code there is nothing to fetch: the first step is a fault that
/// changes nothing.
pub proof fn lemma_empty_code(m: Machine)
    ensures
        step_spec(Seq::empty(), m) == Outcome::Fault(ExecuteError::Bounds, m),
{
}

/// `GrowMemory` by zero leaves memory as it is and pushes its length.
pub proof fn lemma_grow_by_zero(m: Machine)
    requires
        m.wf(),
        m.stack().pos >= 1,
        m.stack().top(1) == 0,
    ensures
        grow_memory_spec(m) is Continue,
        grow_memory_spec(m)->Continue_0.memory() == m.memory(),
        grow_memory_spec(m)->Continue_0.stack().pos == m.stack().pos,
        grow_memory_spec(m)->Continue_0.stack().top(1) == cell_of(m.memory().len() as int),
{
    vstd::arithmetic::div_mod::lemma_small_mod(0, 0x1_0000_0000_0000_0000);
    assert(m.memory() + zero_bytes(0) =~= m.memory());
}

/// `JmpTable` with an index equal to the length of the table jumps to the
/// default target.
pub proof fn lemma_jmp_table_at_length(code: Seq<u8>, m: Machine)
    requires
        m.stack().pos >= 1,
        has_bytes(code, m.ip, 8),
        has_bytes(code, m.ip + 8, 4 * imm_u32(code, m.ip + 4)),
        cell_u64(m.stack().top(1)) == imm_u32(code, m.ip + 4),
    ensures
        jmp_table_spec(code, m) == m.popped(1).skip(8 + 4 * imm_u32(code, m.ip + 4)).jump(
            code,
            imm_u32(code, m.ip),
        ),
{
}

/// `ResetSlots` blows the fuse, and with the fuse blown it is a fault that
/// reads its immediate and changes nothing else.
pub proof fn lemma_reset_slots_once(code: Seq<u8>, m: Machine, code2: Seq<u8>, later: Machine)
    requires
        reset_slots_spec(code, m) is Continue,
        later.fuse,
        has_bytes(code2, later.ip, 4),
    ensures
        reset_slots_spec(code, m)->Continue_0.fuse,
        reset_slots_spec(code2, later) == Outcome::Fault(ExecuteError::Fuse, later.skip(4)),
{
}

/// Executing `ResetSlots` blows the fuse whatever the host answers, and
/// with the fuse blown the instruction is a fault on every host: it reads
/// its immediate and changes nothing else. On a host that does not refuse
/// the reset, the first `ResetSlots` succeeds and leaves zeroed slots.
pub proof fn lemma_reset_slots_blows_fuse(
    code: Seq<u8>,
    pre: Machine,
    post: Machine,
    r: ExecuteResult<Control>,
    kind: HostKind,
)
    requires
        has_bytes(code, pre.ip, 4),
        execute_post(code, Opcode::ResetSlots, pre, post, r, kind),
    ensures
        post.fuse,
        post.ip == pre.ip + 4,
        pre.fuse ==> r == Err::<Control, ExecuteError>(ExecuteError::Fuse) && post == pre.skip(4),
        !pre.fuse && (kind.reset_answer)(imm_u32(code, pre.ip)) == Some(
            Ok::<(), ExecuteError>(()),
        ) ==> {
            &&& r == Ok::<Control, ExecuteError>(Control::Continue)
            &&& post.slots() == zero_cells(imm_u32(code, pre.ip))
        },
{
}

/// On a host that does not refuse it, `GrowMemory` by zero succeeds: it
/// leaves memory as it is and replaces its operand by the length of
/// memory.
pub proof fn lemma_grow_by_zero_succeeds(
    code: Seq<u8>,
    pre: Machine,
    post: Machine,
    r: ExecuteResult<Control>,
    kind: HostKind,
)
    requires
        pre.stack().pos >= 1,
        pre.stack().top(1) == 0,
        (kind.growth_answer)(pre.memory().len(), 0) == Some(Ok::<(), ExecuteError>(())),
        execute_post(code, Opcode::GrowMemory, pre, post, r, kind),
    ensures
        r == Ok::<Control, ExecuteError>(Control::Continue),
        post == pre.with_stack(pre.stack().pop(1).push(cell_of(pre.memory().len() as int))),
{
    vstd::arithmetic::div_mod::lemma_small_mod(0, 0x1_0000_0000_0000_0000);
    assert(pre.memory() + zero_bytes(0) =~= pre.memory());
}

/// `NativeInvoke` on a host without native functions is rejected once its
/// immediate is read: the operand stack, the call stack, memory and the
/// slots are as they were.
pub proof fn lemma_native_invoke_rejected(
    code: Seq<u8>,
    pre: Machine,
    post: Machine,
    r: ExecuteResult<Control>,
    kind: HostKind,
)
    requires
        has_bytes(code, pre.ip, 4),
        !kind.native_functions,
        execute_post(code, Opcode::NativeInvoke, pre, post, r, kind),
    ensures
        r == Err::<Control, ExecuteError>(ExecuteError::InvalidNativeInvoke),
        post == pre.skip(4),
{
}

/// The state that an outcome leaves, whether it goes on, halts or is a
/// fault.
pub open spec fn state_after(o: Outcome) -> Machine {
    match o {
        Outcome::Continue(m) => m,
        Outcome::Halt(m) => m,
        Outcome::Fault(_, m) => m,
    }
}

/// What no instruction changes: the lengths of the two stack buffers, the
/// bounds of their cursors, and a blown fuse.
pub open spec fn keeps_shape(m: Machine, after: Machine) -> bool {
    &&& after.wf()
    &&& after.stack().cells.len() == m.stack().cells.len()
    &&& after.call_stack().cells.len() == m.call_stack().cells.len()
    &&& m.fuse ==> after.fuse
}

/// Loads, stores, arithmetic and comparisons keep the shape.
proof fn lemma_data_keeps_shape(code: Seq<u8>, op: Opcode, m: Machine)
    requires
        m.wf(),
    ensures
        keeps_shape(m, state_after(load_spec(code, op, m))),
        keeps_shape(m, state_after(store_spec(code, op, m))),
        keeps_shape(m, state_after(unary_op_spec(op, m))),
        keeps_shape(m, state_after(binary_op_spec(op, m))),
        keeps_shape(m, state_after(relational_op_spec(op, m))),
{
}

/// Calls, returns and accesses to locals keep the shape.
proof fn lemma_frames_keep_shape(code: Seq<u8>, m: Machine)
    requires
        m.wf(),
    ensures
        keeps_shape(m, state_after(call_spec(code, m))),
        keeps_shape(m, state_after(return_spec(code, m))),
        keeps_shape(m, state_after(get_local_spec(code, m))),
        keeps_shape(m, state_after(set_local_spec(code, m, false))),
        keeps_shape(m, state_after(set_local_spec(code, m, true))),
{
}

/// Jumps and constants keep the shape.
proof fn lemma_jumps_keep_shape(code: Seq<u8>, m: Machine)
    requires
        m.wf(),
    ensures
        keeps_shape(m, state_after(jmp_spec(code, m))),
        keeps_shape(m, state_after(jmp_if_spec(code, m))),
        keeps_shape(m, state_after(jmp_either_spec(code, m))),
        keeps_shape(m, state_after(jmp_table_spec(code, m))),
        keeps_shape(m, state_after(i32_const_spec(code, m))),
        keeps_shape(m, state_after(i64_const_spec(code, m))),
{
}

/// The instructions that work on the operand stack alone, on the slots
/// and on memory as a whole keep the shape.
proof fn lemma_rest_keeps_shape(code: Seq<u8>, m: Machine)
    requires
        m.wf(),
    ensures
        keeps_shape(m, state_after(dup_spec(m))),
        keeps_shape(m, state_after(swap2_spec(m))),
        keeps_shape(m, state_after(select_spec(m))),
        keeps_shape(m, state_after(get_slot_spec(code, m))),
        keeps_shape(m, state_after(get_slot_indirect_spec(m))),
        keeps_shape(m, state_after(set_slot_spec(code, m))),
        keeps_shape(m, state_after(reset_slots_spec(code, m))),
        keeps_shape(m, state_after(native_invoke_spec(code, m))),
        keeps_shape(m, state_after(grow_memory_spec(m))),
{
}

/// After any instruction, one that fails too, the stack pointers of the
/// operand stack and of the call stack lie within their buffers, whose
/// lengths are as before; and no instruction mends the fuse.
#[verifier::rlimit(80)]
#[verifier::spinoff_prover]
pub proof fn lemma_execute_keeps_shape(code: Seq<u8>, op: Opcode, m: Machine)
    requires
        m.wf(),
    ensures
        keeps_shape(m, state_after(execute_spec(code, op, m))),
{
    lemma_data_keeps_shape(code, op, m);
    lemma_frames_keep_shape(code, m);
    lemma_jumps_keep_shape(code, m);
    lemma_rest_keeps_shape(code, m);
}

/// The same of a whole step: fetch, decode, execute.
pub proof fn lemma_step_keeps_shape(code: Seq<u8>, m: Machine)
    requires
        m.wf(),
    ensures
        keeps_shape(m, state_after(step_spec(code, m))),
{
    if m.ip < code.len() && Opcode::is_valid(code[m.ip as int] as int) {
        lemma_execute_keeps_shape(code, Opcode::of_number(code[m.ip as int] as int), m.skip(1));
    }
}

/// A run over no code at all ends on its first fetch, out of bounds.
pub proof fn lemma_run_of_empty_code(
    start: Machine,
    end: Machine,
    budget: nat,
    r: ExecuteResult<()>,
    kind: HostKind,
)
    requires
        budget >= 1,
        run_post(Seq::empty(), start, end, budget, r, kind),
    ensures
        r == Err::<(), ExecuteError>(ExecuteError::Bounds),
{
    let code = Seq::<u8>::empty();
    let trace = choose|trace: Seq<Machine>|
        {
            &&& #[trigger] is_run(code, trace, kind)
            &&& trace[0] == start
            &&& trace.len() <= budget + 1
            &&& {
                ||| {
                    &&& trace.len() == budget + 1
                    &&& r == Err::<(), ExecuteError>(ExecuteError::ExecutionLimit)
                    &&& end == trace.last()
                }
                ||| {
                    &&& trace.len() <= budget
                    &&& step_post(code, trace.last(), end, last_result(r), kind)
                }
            }
        };
    if trace.len() >= 2 {
        assert(step_post(code, trace[0], trace[1], Ok(Control::Continue), kind));
    }
}

/// A run without a budget executes nothing: it is cut off where it
/// starts.
pub proof fn lemma_run_without_budget(
    code: Seq<u8>,
    start: Machine,
    end: Machine,
    r: ExecuteResult<()>,
    kind: HostKind,
)
    requires
        run_post(code, start, end, 0, r, kind),
    ensures
        r == Err::<(), ExecuteError>(ExecuteError::ExecutionLimit),
        end == start,
{
}

/// A run with a budget begins with one step. Either that step ends the
/// run, with `Halt` or with an error, or it leads to a state from which
/// the rest is a run with one instruction less to spend.
pub proof fn lemma_run_unfolds(
    code: Seq<u8>,
    start: Machine,
    end: Machine,
    budget: nat,
    r: ExecuteResult<()>,
    kind: HostKind,
)
    requires
        budget >= 1,
        run_post(code, start, end, budget, r, kind),
    ensures
        start.wf(),
        step_post(code, start, end, last_result(r), kind) || exists|next: Machine|
            {
                &&& #[trigger] step_post(code, start, next, Ok(Control::Continue), kind)
                &&& run_post(code, next, end, (budget - 1) as nat, r, kind)
            },
{
    let trace = choose|trace: Seq<Machine>|
        {
            &&& #[trigger] is_run(code, trace, kind)
            &&& trace[0] == start
            &&& trace.len() <= budget + 1
            &&& {
                ||| {
                    &&& trace.len() == budget + 1
                    &&& r == Err::<(), ExecuteError>(ExecuteError::ExecutionLimit)
                    &&& end == trace.last()
                }
                ||| {
                    &&& trace.len() <= budget
                    &&& step_post(code, trace.last(), end, last_result(r), kind)
                }
            }
        };
    assert(trace[0].wf());
    if trace.len() >= 2 {
        let rest = trace.subrange(1, trace.len() as int);
        assert(step_post(code, trace[0], trace[1], Ok(Control::Continue), kind));
        assert forall|i: int| 0 <= i < rest.len() implies (#[trigger] rest[i]).wf() by {
            assert(rest[i] == trace[i + 1]);
        }
        assert forall|i: int| 0 <= i < rest.len() - 1 implies step_post(
            code,
            #[trigger] rest[i],
            rest[i + 1],
            Ok(Control::Continue),
            kind,
        ) by {
            assert(rest[i] == trace[i + 1]);
            assert(rest[i + 1] == trace[i + 2]);
        }
        assert(is_run(code, rest, kind));
        assert(rest.last() == trace.last());
        assert(run_post(code, rest[0], end, (budget - 1) as nat, r, kind));
    }
}

/// Once the fuse is blown it stays blown for the rest of a run.
pub proof fn lemma_fuse_stays_blown(
    code: Seq<u8>,
    trace: Seq<Machine>,
    kind: HostKind,
    i: int,
    j: int,
)
    requires
        is_run(code, trace, kind),
        0 <= i <= j < trace.len(),
        trace[i].fuse,
    ensures
        trace[j].fuse,
    decreases j - i,
{
    if i < j {
        assert(step_post(code, trace[i], trace[i + 1], Ok(Control::Continue), kind));
        assert(trace[i].wf());
        lemma_step_keeps_shape(code, trace[i]);
        lemma_fuse_stays_blown(code, trace, kind, i + 1, j);
    }
}

/// Wherever a run comes upon `Select` with three operands on the stack,
/// the next state has the three operands replaced by the first of them if
/// the third, on top, is not zero, and by the second if it is; nothing
/// else changes but the instruction pointer, which stands behind the
/// opcode.
pub proof fn lemma_select_in_run(code: Seq<u8>, trace: Seq<Machine>, kind: HostKind, i: int)
    requires
        is_run(code, trace, kind),
        0 <= i < trace.len() - 1,
        trace[i].ip < code.len(),
        code[trace[i].ip as int] == Opcode::Select.number(),
        trace[i].stack().pos >= 3,
    ensures
        trace[i + 1] == trace[i].skip(1).with_stack(
            trace[i].stack().pop(3).push(
                if trace[i].stack().top(1) != 0 {
                    trace[i].stack().top(3)
                } else {
                    trace[i].stack().top(2)
                },
            ),
        ),
{
    Opcode::lemma_numbering(Opcode::Select, 4);
    assert(step_post(code, trace[i], trace[i + 1], Ok(Control::Continue), kind));
}

/// On a host that holds no instruction back, a step that is a fault of
/// the machine itself returns the error of that fault and leaves the state
/// that the fault names. So a failed load or store ends a run with memory
/// as it was.
pub proof fn lemma_fault_ends_step(
    code: Seq<u8>,
    last: Machine,
    end: Machine,
    r: ExecuteResult<Control>,
    kind: HostKind,
    e: ExecuteError,
    left: Machine,
)
    requires
        step_post(code, last, end, r, kind),
        !kind.watches_opcodes,
        step_spec(code, last) == Outcome::Fault(e, left),
    ensures
        r == Err::<Control, ExecuteError>(e),
        end == left,
{
}

} // verus!
