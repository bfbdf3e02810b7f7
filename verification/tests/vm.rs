use hexagon_e::environment::{BufferEnvironment, Environment};
use hexagon_e::error::{ExecuteError, ExecuteResult};
use hexagon_e::module::{Module, Opcode};
use hexagon_e::tape::Tape;
use hexagon_e::vm::{Control, VirtualMachine};

const MIB: usize = 1 << 20;

fn op(o: Opcode) -> Vec<u8> {
    vec![o.to_raw()]
}

fn op32(o: Opcode, imm: u32) -> Vec<u8> {
    let mut v = vec![o.to_raw()];
    v.extend_from_slice(&imm.to_le_bytes());
    v
}

fn op64(o: Opcode, imm: u64) -> Vec<u8> {
    let mut v = vec![o.to_raw()];
    v.extend_from_slice(&imm.to_le_bytes());
    v
}

fn program(parts: &[Vec<u8>]) -> Vec<u8> {
    parts.concat()
}

fn image(initializers: &[u8], code: &[u8]) -> Vec<u8> {
    let mut v = (initializers.len() as u32).to_le_bytes().to_vec();
    v.extend_from_slice(initializers);
    v.extend_from_slice(code);
    v
}

fn small_env() -> BufferEnvironment {
    BufferEnvironment::new(256, 8, 16, 16)
}

/// Runs `code` on `env` and hands back the result and the environment.
fn run_on(env: BufferEnvironment, code: &[u8]) -> (ExecuteResult<()>, BufferEnvironment) {
    let raw = image(&[], code);
    let module = Module::from_raw(&raw).unwrap();
    let mut vm = VirtualMachine::new(&module, env);
    let r = vm.run();
    (r, vm.env)
}

fn run(code: &[u8]) -> (ExecuteResult<()>, BufferEnvironment) {
    run_on(small_env(), code)
}

fn stack_of(env: &BufferEnvironment) -> Vec<i64> {
    let s = env.get_stack();
    (0..s.get_pos()).map(|i| *s.at(i).unwrap()).collect()
}

fn call_stack_of(env: &BufferEnvironment) -> Vec<i64> {
    let s = env.get_call_stack();
    (0..s.get_pos()).map(|i| *s.at(i).unwrap()).collect()
}

/// Runs `code` and expects a clean halt; returns the live operand stack.
fn eval(code: &[Vec<u8>]) -> Vec<i64> {
    let mut parts = code.to_vec();
    parts.push(op(Opcode::Halt));
    let (r, env) = run(&program(&parts));
    assert!(r.is_ok(), "run failed: {:?}", r);
    stack_of(&env)
}

fn fails_with(code: &[Vec<u8>]) -> ExecuteError {
    let (r, _) = run(&program(code));
    r.unwrap_err()
}

#[test]
fn arithmetic_then_halt_leaves_stack_and_memory_clean() {
    let code = program(&[
        op32(Opcode::I32Const, 3),
        op32(Opcode::I32Const, 4),
        op(Opcode::I32Add),
        op(Opcode::Drop),
        op(Opcode::Halt),
    ]);
    let (r, env) = run_on(BufferEnvironment::new(MIB, 0, 1024, 1024), &code);
    assert!(r.is_ok());
    assert_eq!(env.get_stack().get_pos(), 0);
    assert!(env.get_memory().iter().all(|b| *b == 0));
    assert_eq!(env.get_memory().len(), MIB);
}

#[test]
fn three_plus_four_is_seven() {
    assert_eq!(
        eval(&[op32(Opcode::I32Const, 3), op32(Opcode::I32Const, 4), op(Opcode::I32Add)]),
        vec![7]
    );
}

#[test]
fn store_then_load_round_trips_through_memory() {
    let code = program(&[
        op32(Opcode::I32Const, 100),
        op32(Opcode::I32Const, 0xDEADBEEF),
        op32(Opcode::I32Store, 0),
        op32(Opcode::I32Const, 100),
        op32(Opcode::I32Load, 0),
        op(Opcode::Halt),
    ]);
    let (r, env) = run_on(BufferEnvironment::new(MIB, 0, 1024, 1024), &code);
    assert!(r.is_ok());
    assert_eq!(&env.get_memory()[100..104], &[0xEF, 0xBE, 0xAD, 0xDE]);
    assert_eq!(stack_of(&env), vec![0xDEADBEEFi64]);
    assert!(env.get_memory()[..100].iter().all(|b| *b == 0));
    assert!(env.get_memory()[104..].iter().all(|b| *b == 0));
}

#[test]
fn store_takes_the_value_from_the_top_and_the_address_below() {
    let code = program(&[
        op32(Opcode::I32Const, 0xDEADBEEF),
        op32(Opcode::I32Const, 100),
        op32(Opcode::I32Store, 0),
        op(Opcode::Halt),
    ]);
    let (r, env) = run_on(BufferEnvironment::new(MIB, 0, 1024, 1024), &code);
    assert!(matches!(r, Err(ExecuteError::Bounds)));
    assert!(env.get_memory().iter().all(|b| *b == 0));
}

#[test]
fn a_call_returns_its_argument_plus_one() {
    let target = 21;
    let code = program(&[
        op32(Opcode::I32Const, 7),
        op32(Opcode::I32Const, target),
        op32(Opcode::I32Const, 0),
        op32(Opcode::Call, 1),
        op(Opcode::Halt),
        op32(Opcode::GetLocal, 0),
        op32(Opcode::I32Const, 1),
        op(Opcode::I32Add),
        op(Opcode::Return),
    ]);
    assert_eq!(code[target as usize], Opcode::GetLocal.to_raw());
    let (r, env) = run(&code);
    assert!(r.is_ok());
    assert_eq!(stack_of(&env), vec![8]);
    assert_eq!(env.get_call_stack().get_pos(), 0);
}

#[test]
fn a_load_far_beyond_memory_is_out_of_bounds() {
    let code = program(&[op32(Opcode::I32Const, 0xFFFFFFFC), op32(Opcode::I32Load, 8)]);
    let (r, _) = run_on(BufferEnvironment::new(MIB, 0, 1024, 1024), &code);
    let e = r.unwrap_err();
    assert_eq!(e, ExecuteError::Bounds);
    assert_eq!(e.status(), -2);
}

#[test]
fn a_second_reset_of_the_slots_blows_the_fuse() {
    let e = fails_with(&[op32(Opcode::ResetSlots, 4), op32(Opcode::ResetSlots, 4)]);
    assert_eq!(e, ExecuteError::Fuse);
    assert_eq!(e.status(), -12);
}

fn jump_table_program(index: u32) -> Vec<u8> {
    // I32Const (5) + JmpTable with 3 entries (1 + 4 + 4 + 12 = 21): labels from 26 on.
    let l_default = 26;
    let l_0 = 27;
    let l_1 = 28;
    let l_2 = 29;
    let mut table = op32(Opcode::JmpTable, l_default);
    table.extend_from_slice(&3u32.to_le_bytes());
    for l in [l_0, l_1, l_2] {
        let l: u32 = l;
        table.extend_from_slice(&l.to_le_bytes());
    }
    program(&[
        op32(Opcode::I32Const, index),
        table,
        op(Opcode::Unreachable),
        op(Opcode::NotSupported),
        op(Opcode::NotSupported),
        op(Opcode::Halt),
    ])
}

#[test]
fn jump_table_selects_the_entry_of_its_index() {
    let code = jump_table_program(2);
    assert_eq!(code[29], Opcode::Halt.to_raw());
    let (r, env) = run(&code);
    assert!(r.is_ok());
    assert_eq!(env.get_stack().get_pos(), 0);
}

#[test]
fn jump_table_selects_each_entry() {
    assert_eq!(run(&jump_table_program(0)).0.unwrap_err(), ExecuteError::NotSupported);
    assert_eq!(run(&jump_table_program(1)).0.unwrap_err(), ExecuteError::NotSupported);
}

#[test]
fn jump_table_with_index_equal_to_length_uses_default() {
    assert_eq!(run(&jump_table_program(3)).0.unwrap_err(), ExecuteError::Unreachable);
}

#[test]
fn jump_table_with_large_or_negative_index_uses_default() {
    assert_eq!(run(&jump_table_program(1000)).0.unwrap_err(), ExecuteError::Unreachable);
    assert_eq!(run(&jump_table_program(0xFFFF_FFFF)).0.unwrap_err(), ExecuteError::Unreachable);
}

#[test]
fn jump_table_cut_short_is_out_of_bounds() {
    let mut code = op32(Opcode::I32Const, 0);
    code.extend(op32(Opcode::JmpTable, 0));
    code.extend_from_slice(&2u32.to_le_bytes());
    code.extend_from_slice(&0u32.to_le_bytes());
    assert_eq!(run(&code).0.unwrap_err(), ExecuteError::Bounds);
}

#[test]
fn empty_module_fails_on_the_first_fetch() {
    let raw = image(&[], &[]);
    let module = Module::from_raw(&raw).unwrap();
    let mut vm = VirtualMachine::new(&module, small_env());
    assert!(vm.run_memory_initializers().is_ok());
    assert_eq!(vm.run().unwrap_err(), ExecuteError::Bounds);
}

#[test]
fn undefined_first_opcode_is_illegal() {
    assert_eq!(run(&[0]).0.unwrap_err(), ExecuteError::IllegalOpcode);
    assert_eq!(run(&[105]).0.unwrap_err(), ExecuteError::IllegalOpcode);
    assert_eq!(run(&[255]).0.unwrap_err(), ExecuteError::IllegalOpcode);
}

#[test]
fn running_off_the_end_of_the_code_is_out_of_bounds() {
    assert_eq!(fails_with(&[op(Opcode::Nop), op(Opcode::Nop)]), ExecuteError::Bounds);
}

#[test]
fn unreachable_and_not_supported_abort() {
    assert_eq!(fails_with(&[op(Opcode::Unreachable)]), ExecuteError::Unreachable);
    assert_eq!(fails_with(&[op(Opcode::NotSupported)]), ExecuteError::NotSupported);
    assert_eq!(ExecuteError::Unreachable.status(), -3);
    assert_eq!(ExecuteError::NotSupported.status(), -6);
}

#[test]
fn a_missing_immediate_is_out_of_bounds() {
    assert_eq!(run(&[Opcode::I32Const.to_raw(), 1, 2, 3]).0.unwrap_err(), ExecuteError::Bounds);
    assert_eq!(
        run(&[Opcode::I64Const.to_raw(), 1, 2, 3, 4, 5, 6, 7]).0.unwrap_err(),
        ExecuteError::Bounds
    );
    assert_eq!(run(&[Opcode::Jmp.to_raw()]).0.unwrap_err(), ExecuteError::Bounds);
}

#[test]
fn constants() {
    assert_eq!(eval(&[op32(Opcode::I32Const, 5)]), vec![5]);
    assert_eq!(eval(&[op32(Opcode::I32Const, 0x7FFF_FFFF)]), vec![0x7FFF_FFFF]);
    assert_eq!(eval(&[op32(Opcode::I32Const, 0xFFFF_FFFF)]), vec![-1]);
    assert_eq!(eval(&[op32(Opcode::I32Const, 0x8000_0000)]), vec![-0x8000_0000]);
    assert_eq!(eval(&[op64(Opcode::I64Const, 5)]), vec![5]);
    assert_eq!(eval(&[op64(Opcode::I64Const, u64::MAX)]), vec![-1]);
    assert_eq!(eval(&[op64(Opcode::I64Const, 0x8000_0000_0000_0000)]), vec![i64::MIN]);
}

#[test]
fn drop_dup_swap() {
    assert_eq!(eval(&[op32(Opcode::I32Const, 1), op32(Opcode::I32Const, 2), op(Opcode::Drop)]), vec![1]);
    assert_eq!(eval(&[op32(Opcode::I32Const, 9), op(Opcode::Dup)]), vec![9, 9]);
    assert_eq!(
        eval(&[op32(Opcode::I32Const, 1), op32(Opcode::I32Const, 2), op(Opcode::Swap2)]),
        vec![2, 1]
    );
}

#[test]
fn dup_then_drop_changes_nothing_live() {
    let base = [op32(Opcode::I32Const, 4), op32(Opcode::I32Const, 5)];
    let mut longer = base.to_vec();
    longer.push(op(Opcode::Dup));
    longer.push(op(Opcode::Drop));
    assert_eq!(eval(&longer), eval(&base));
}

#[test]
fn swap2_twice_changes_nothing() {
    let base = [op32(Opcode::I32Const, 4), op32(Opcode::I32Const, 5)];
    let mut longer = base.to_vec();
    longer.push(op(Opcode::Swap2));
    longer.push(op(Opcode::Swap2));
    assert_eq!(eval(&longer), eval(&base));
    assert_eq!(eval(&longer), vec![4, 5]);
}

#[test]
fn select_takes_the_first_value_on_a_nonzero_condition() {
    let pick = |cond: u32| {
        eval(&[
            op32(Opcode::I32Const, 77),
            op32(Opcode::I32Const, 10),
            op32(Opcode::I32Const, 20),
            op32(Opcode::I32Const, cond),
            op(Opcode::Select),
        ])
    };
    assert_eq!(pick(1), vec![77, 10]);
    assert_eq!(pick(0), vec![77, 20]);
    assert_eq!(pick(0xFFFF_FFFF), vec![77, 10]);
}

#[test]
fn stack_underflow_is_out_of_bounds() {
    assert_eq!(fails_with(&[op(Opcode::Drop)]), ExecuteError::Bounds);
    assert_eq!(fails_with(&[op(Opcode::Dup)]), ExecuteError::Bounds);
    assert_eq!(fails_with(&[op32(Opcode::I32Const, 1), op(Opcode::Swap2)]), ExecuteError::Bounds);
    assert_eq!(
        fails_with(&[op32(Opcode::I32Const, 1), op32(Opcode::I32Const, 1), op(Opcode::Select)]),
        ExecuteError::Bounds
    );
    assert_eq!(fails_with(&[op32(Opcode::I32Const, 1), op(Opcode::I32Add)]), ExecuteError::Bounds);
    assert_eq!(fails_with(&[op(Opcode::I32Clz)]), ExecuteError::Bounds);
    assert_eq!(fails_with(&[op32(Opcode::I32Const, 1), op(Opcode::I64Eq)]), ExecuteError::Bounds);
    assert_eq!(fails_with(&[op(Opcode::Return)]), ExecuteError::Bounds);
}

#[test]
fn stack_overflow_is_out_of_bounds() {
    let code = program(&[
        op32(Opcode::I32Const, 1),
        op32(Opcode::I32Const, 2),
        op32(Opcode::I32Const, 3),
        op(Opcode::Halt),
    ]);
    let (r, env) = run_on(BufferEnvironment::new(16, 0, 2, 2), &code);
    assert_eq!(r.unwrap_err(), ExecuteError::Bounds);
    assert_eq!(env.get_stack().get_pos(), 2);
    assert_eq!(env.get_stack().len(), 2);
}

#[test]
fn arithmetic_through_the_machine() {
    assert_eq!(
        eval(&[op32(Opcode::I32Const, 0x7FFF_FFFF), op32(Opcode::I32Const, 1), op(Opcode::I32Add)]),
        vec![-0x8000_0000]
    );
    assert_eq!(
        eval(&[op32(Opcode::I32Const, 10), op32(Opcode::I32Const, 3), op(Opcode::I32Sub)]),
        vec![7]
    );
    assert_eq!(
        eval(&[op64(Opcode::I64Const, 10), op64(Opcode::I64Const, 3), op(Opcode::I64DivS)]),
        vec![3]
    );
    assert_eq!(
        eval(&[op32(Opcode::I32Const, 3), op32(Opcode::I32Const, 10), op(Opcode::I32LtS)]),
        vec![1]
    );
    assert_eq!(
        eval(&[op32(Opcode::I32Const, 10), op32(Opcode::I32Const, 3), op(Opcode::I32LtS)]),
        vec![0]
    );
    assert_eq!(eval(&[op32(Opcode::I32Const, 8), op(Opcode::I32Ctz)]), vec![3]);
    assert_eq!(
        eval(&[op64(Opcode::I64Const, 0x1_8000_0000), op(Opcode::I32WrapI64), op(Opcode::I64ExtendI32S)]),
        vec![-0x8000_0000]
    );
}

#[test]
fn division_by_zero_aborts() {
    let e = fails_with(&[op32(Opcode::I32Const, 1), op32(Opcode::I32Const, 0), op(Opcode::I32DivU)]);
    assert_eq!(e, ExecuteError::DivideByZero);
    assert_eq!(e.status(), -13);
    assert_eq!(
        fails_with(&[op64(Opcode::I64Const, 1), op64(Opcode::I64Const, 0), op(Opcode::I64RemS)]),
        ExecuteError::DivideByZero
    );
}

#[test]
fn jumps() {
    // 0: Jmp 6; 5: Unreachable; 6: Halt
    let (r, _) = run(&program(&[op32(Opcode::Jmp, 6), op(Opcode::Unreachable), op(Opcode::Halt)]));
    assert!(r.is_ok());
    // jump to the very end is allowed, the next fetch fails
    assert_eq!(fails_with(&[op32(Opcode::Jmp, 5)]), ExecuteError::Bounds);
    assert_eq!(fails_with(&[op32(Opcode::Jmp, 6)]), ExecuteError::Bounds);
}

#[test]
fn conditional_jumps() {
    // 0: I32Const c; 5: JmpIf 11; 10: Halt; 11: Unreachable
    let with = |c: u32| {
        run(&program(&[
            op32(Opcode::I32Const, c),
            op32(Opcode::JmpIf, 11),
            op(Opcode::Halt),
            op(Opcode::Unreachable),
        ]))
        .0
    };
    assert!(with(0).is_ok());
    assert_eq!(with(1).unwrap_err(), ExecuteError::Unreachable);
    // 0: I32Const c; 5: JmpEither 14 15; 14: Halt; 15: Unreachable
    let either = |c: u32| {
        let mut j = op32(Opcode::JmpEither, 14);
        j.extend_from_slice(&15u32.to_le_bytes());
        run(&program(&[op32(Opcode::I32Const, c), j, op(Opcode::Halt), op(Opcode::Unreachable)])).0
    };
    assert!(either(5).is_ok());
    assert_eq!(either(0).unwrap_err(), ExecuteError::Unreachable);
}

#[test]
fn loads_widen_by_sign_or_zero() {
    let mut env = small_env();
    env.get_memory_mut()[16..24].copy_from_slice(&[0xF0, 0xFF, 0xFF, 0xFF, 0xFF, 0xFF, 0xFF, 0x8F]);
    let raw_code = |o: Opcode| {
        program(&[op32(Opcode::I32Const, 10), op32(o, 6), op(Opcode::Halt)])
    };
    let load = |o: Opcode| {
        let mut e = small_env();
        e.get_memory_mut().copy_from_slice(env.get_memory());
        let (r, e) = run_on(e, &raw_code(o));
        assert!(r.is_ok());
        stack_of(&e)
    };
    assert_eq!(load(Opcode::I32Load8U), vec![0xF0]);
    assert_eq!(load(Opcode::I32Load8S), vec![-16]);
    assert_eq!(load(Opcode::I32Load16U), vec![0xFFF0]);
    assert_eq!(load(Opcode::I32Load16S), vec![-16]);
    assert_eq!(load(Opcode::I32Load), vec![0xFFFF_FFF0]);
    assert_eq!(load(Opcode::I64Load8U), vec![0xF0]);
    assert_eq!(load(Opcode::I64Load8S), vec![-16]);
    assert_eq!(load(Opcode::I64Load16U), vec![0xFFF0]);
    assert_eq!(load(Opcode::I64Load16S), vec![-16]);
    assert_eq!(load(Opcode::I64Load32U), vec![0xFFFF_FFF0]);
    assert_eq!(load(Opcode::I64Load32S), vec![-16]);
    assert_eq!(load(Opcode::I64Load), vec![0x8FFF_FFFF_FFFF_FFF0u64 as i64]);
}

#[test]
fn stores_truncate() {
    let store = |o: Opcode| {
        let code = program(&[
            op32(Opcode::I32Const, 8),
            op64(Opcode::I64Const, 0x1122_3344_5566_7788),
            op32(o, 8),
            op(Opcode::Halt),
        ]);
        let (r, e) = run(&code);
        assert!(r.is_ok());
        assert_eq!(e.get_stack().get_pos(), 0);
        assert!(e.get_memory()[..16].iter().all(|b| *b == 0));
        e.get_memory()[16..26].to_vec()
    };
    assert_eq!(store(Opcode::I32Store8), [0x88, 0, 0, 0, 0, 0, 0, 0, 0, 0]);
    assert_eq!(store(Opcode::I64Store8), [0x88, 0, 0, 0, 0, 0, 0, 0, 0, 0]);
    assert_eq!(store(Opcode::I32Store16), [0x88, 0x77, 0, 0, 0, 0, 0, 0, 0, 0]);
    assert_eq!(store(Opcode::I64Store16), [0x88, 0x77, 0, 0, 0, 0, 0, 0, 0, 0]);
    assert_eq!(store(Opcode::I32Store), [0x88, 0x77, 0x66, 0x55, 0, 0, 0, 0, 0, 0]);
    assert_eq!(store(Opcode::I64Store32), [0x88, 0x77, 0x66, 0x55, 0, 0, 0, 0, 0, 0]);
    assert_eq!(store(Opcode::I64Store), [0x88, 0x77, 0x66, 0x55, 0x44, 0x33, 0x22, 0x11, 0, 0]);
}

#[test]
fn memory_access_succeeds_exactly_within_bounds() {
    // memory of 256 bytes: a 4-byte access at 252 is the last that fits
    let load_at = |addr: u32, offset: u32| {
        run(&program(&[op32(Opcode::I32Const, addr), op32(Opcode::I32Load, offset), op(Opcode::Halt)])).0
    };
    assert!(load_at(252, 0).is_ok());
    assert!(load_at(250, 2).is_ok());
    assert_eq!(load_at(253, 0).unwrap_err(), ExecuteError::Bounds);
    assert_eq!(load_at(250, 3).unwrap_err(), ExecuteError::Bounds);
    assert_eq!(load_at(256, 0).unwrap_err(), ExecuteError::Bounds);
    let store8_at = |addr: u32| {
        run(&program(&[
            op32(Opcode::I32Const, addr),
            op32(Opcode::I32Const, 1),
            op32(Opcode::I32Store8, 0),
            op(Opcode::Halt),
        ]))
        .0
    };
    assert!(store8_at(255).is_ok());
    assert_eq!(store8_at(256).unwrap_err(), ExecuteError::Bounds);
}

#[test]
fn the_address_is_the_low_half_of_the_cell() {
    let code = program(&[
        op64(Opcode::I64Const, 0x7_0000_0010),
        op32(Opcode::I32Const, 0xAB),
        op32(Opcode::I32Store8, 0),
        op(Opcode::Halt),
    ]);
    let (r, env) = run(&code);
    assert!(r.is_ok());
    assert_eq!(env.get_memory()[16], 0xAB);
}

#[test]
fn store_then_load_returns_the_low_32_bits() {
    for k in [0u64, 1, 0xDEADBEEF, 0x1_2345_6789, u64::MAX] {
        let code = [
            op32(Opcode::I32Const, 40),
            op64(Opcode::I64Const, k),
            op32(Opcode::I32Store, 4),
            op32(Opcode::I32Const, 40),
            op32(Opcode::I32Load, 4),
        ];
        assert_eq!(eval(&code), vec![(k & 0xFFFF_FFFF) as i64]);
    }
}

#[test]
fn current_memory_pushes_the_length() {
    assert_eq!(eval(&[op(Opcode::CurrentMemory)]), vec![256]);
}

#[test]
fn grow_memory_by_zero_keeps_the_length_and_pushes_it() {
    let (r, env) = run(&program(&[op32(Opcode::I32Const, 0), op(Opcode::GrowMemory), op(Opcode::Halt)]));
    assert!(r.is_ok());
    assert_eq!(env.get_memory().len(), 256);
    assert_eq!(stack_of(&env), vec![256]);
}

#[test]
fn grow_memory_appends_zero_bytes_and_pushes_the_old_length() {
    let code = program(&[
        op32(Opcode::I32Const, 0),
        op32(Opcode::I32Const, 0x55),
        op32(Opcode::I32Store8, 255),
        op32(Opcode::I32Const, 100),
        op(Opcode::GrowMemory),
        op(Opcode::CurrentMemory),
        op(Opcode::Halt),
    ]);
    let (r, env) = run(&code);
    assert!(r.is_ok());
    assert_eq!(stack_of(&env), vec![256, 356]);
    assert_eq!(env.get_memory().len(), 356);
    assert_eq!(env.get_memory()[255], 0x55);
    assert!(env.get_memory()[256..].iter().all(|b| *b == 0));
}

#[test]
fn grow_memory_beyond_the_address_space_is_refused() {
    let e = fails_with(&[op64(Opcode::I64Const, u64::MAX), op(Opcode::GrowMemory)]);
    assert_eq!(e, ExecuteError::MemoryLimit);
    assert_eq!(e.status(), -9);
}

#[test]
fn slots() {
    let code = program(&[
        op32(Opcode::I32Const, 41),
        op32(Opcode::SetSlot, 3),
        op32(Opcode::GetSlot, 3),
        op32(Opcode::I32Const, 3),
        op(Opcode::GetSlotIndirect),
        op32(Opcode::GetSlot, 0),
        op(Opcode::Halt),
    ]);
    let (r, env) = run(&code);
    assert!(r.is_ok());
    assert_eq!(stack_of(&env), vec![41, 41, 0]);
    assert_eq!(env.get_slots(), &[0, 0, 0, 41, 0, 0, 0, 0]);
}

#[test]
fn slot_index_out_of_range_is_out_of_bounds() {
    assert_eq!(fails_with(&[op32(Opcode::GetSlot, 8)]), ExecuteError::Bounds);
    assert_eq!(
        fails_with(&[op32(Opcode::I32Const, 1), op32(Opcode::SetSlot, 8)]),
        ExecuteError::Bounds
    );
    assert_eq!(
        fails_with(&[op32(Opcode::I32Const, 8), op(Opcode::GetSlotIndirect)]),
        ExecuteError::Bounds
    );
    assert_eq!(
        fails_with(&[op32(Opcode::I32Const, 0xFFFF_FFFF), op(Opcode::GetSlotIndirect)]),
        ExecuteError::Bounds
    );
}

#[test]
fn reset_slots_replaces_the_slots_by_zeros() {
    let code = program(&[
        op32(Opcode::I32Const, 41),
        op32(Opcode::SetSlot, 3),
        op32(Opcode::ResetSlots, 5),
        op32(Opcode::GetSlot, 3),
        op(Opcode::Halt),
    ]);
    let (r, env) = run(&code);
    assert!(r.is_ok());
    assert_eq!(env.get_slots(), &[0, 0, 0, 0, 0]);
    assert_eq!(stack_of(&env), vec![0]);
}

#[test]
fn the_fuse_outlives_a_run() {
    let raw = image(&[], &program(&[op32(Opcode::ResetSlots, 2), op(Opcode::Halt)]));
    let module = Module::from_raw(&raw).unwrap();
    let mut vm = VirtualMachine::new(&module, small_env());
    assert!(vm.run().is_ok());
    assert_eq!(vm.run().unwrap_err(), ExecuteError::Fuse);
}

#[test]
fn native_invoke_without_native_functions_is_rejected() {
    let e = fails_with(&[op32(Opcode::NativeInvoke, 0)]);
    assert_eq!(e, ExecuteError::InvalidNativeInvoke);
    assert_eq!(e.status(), -5);
}

#[test]
fn call_builds_a_frame_of_arguments_and_zeroed_locals() {
    // 0..20: four constants; 20: Call 2; 25: Halt; 26: Halt (the callee)
    let code = program(&[
        op32(Opcode::I32Const, 11),
        op32(Opcode::I32Const, 22),
        op32(Opcode::I32Const, 26),
        op32(Opcode::I32Const, 3),
        op32(Opcode::Call, 2),
        op(Opcode::Halt),
        op(Opcode::Halt),
    ]);
    let (r, env) = run(&code);
    assert!(r.is_ok());
    assert_eq!(stack_of(&env), Vec::<i64>::new());
    assert_eq!(call_stack_of(&env), vec![11, 22, 0, 0, 0, 5, 25]);
}

#[test]
fn locals_can_be_read_and_written() {
    // 0: I32Const 7; 5: I32Const 21 (target); 10: I32Const 1 (locals); 15: Call 1; 20: Halt
    // 21: I32Const 5; 26: SetLocal 1; 31: I32Const 9; 36: TeeLocal 0; 41: GetLocal 1;
    // 46: GetLocal 0; 51: Return
    let code = program(&[
        op32(Opcode::I32Const, 7),
        op32(Opcode::I32Const, 21),
        op32(Opcode::I32Const, 1),
        op32(Opcode::Call, 1),
        op(Opcode::Halt),
        op32(Opcode::I32Const, 5),
        op32(Opcode::SetLocal, 1),
        op32(Opcode::I32Const, 9),
        op32(Opcode::TeeLocal, 0),
        op32(Opcode::GetLocal, 1),
        op32(Opcode::GetLocal, 0),
        op(Opcode::Return),
    ]);
    let (r, env) = run(&code);
    assert!(r.is_ok());
    assert_eq!(stack_of(&env), vec![9, 5, 9]);
    assert_eq!(env.get_call_stack().get_pos(), 0);
}

#[test]
fn a_local_out_of_range_is_out_of_bounds() {
    let callee = |body: Vec<u8>| {
        program(&[
            op32(Opcode::I32Const, 7),
            op32(Opcode::I32Const, 21),
            op32(Opcode::I32Const, 0),
            op32(Opcode::Call, 1),
            op(Opcode::Halt),
            body,
            op(Opcode::Return),
        ])
    };
    assert!(run(&callee(op32(Opcode::GetLocal, 0))).0.is_ok());
    assert_eq!(run(&callee(op32(Opcode::GetLocal, 1))).0.unwrap_err(), ExecuteError::Bounds);
    assert_eq!(run(&callee(op32(Opcode::TeeLocal, 1))).0.unwrap_err(), ExecuteError::Bounds);
    assert_eq!(run(&callee(op32(Opcode::SetLocal, 5))).0.unwrap_err(), ExecuteError::Bounds);
    // no frame at all
    assert_eq!(fails_with(&[op32(Opcode::GetLocal, 0)]), ExecuteError::Bounds);
}

#[test]
fn call_then_return_restores_the_call_stack_and_continues_behind_the_call() {
    // after the return the machine executes what follows the immediate of Call
    let code = program(&[
        op32(Opcode::I32Const, 1),
        op32(Opcode::I32Const, 2),
        op32(Opcode::I32Const, 3),
        op32(Opcode::I32Const, 36),
        op32(Opcode::I32Const, 4),
        op32(Opcode::Call, 2),
        op32(Opcode::I32Const, 99),
        op(Opcode::Halt),
        op(Opcode::Return),
    ]);
    assert_eq!(code[36], Opcode::Return.to_raw());
    let (r, env) = run(&code);
    assert!(r.is_ok());
    // five cells were pushed; the call took two arguments and two cells of metadata
    assert_eq!(stack_of(&env), vec![1, 99]);
    assert_eq!(env.get_call_stack().get_pos(), 0);
}

#[test]
fn call_with_too_few_arguments_or_too_little_room_fails() {
    assert_eq!(
        fails_with(&[op32(Opcode::I32Const, 10), op32(Opcode::I32Const, 0), op32(Opcode::Call, 1)]),
        ExecuteError::Bounds
    );
    // 14 locals and two cells of metadata fill the call stack of 16 cells; 15 do not fit
    let with_locals = |n: u32| {
        run(&program(&[
            op32(Opcode::I32Const, 16),
            op32(Opcode::I32Const, n),
            op32(Opcode::Call, 0),
            op(Opcode::Halt),
            op(Opcode::Halt),
        ]))
        .0
    };
    assert!(with_locals(14).is_ok());
    assert_eq!(with_locals(15).unwrap_err(), ExecuteError::Bounds);
    assert_eq!(with_locals(0xFFFF_FFFF).unwrap_err(), ExecuteError::Bounds);
}

#[test]
fn call_to_a_target_outside_the_code_fails() {
    assert_eq!(
        fails_with(&[op32(Opcode::I32Const, 1000), op32(Opcode::I32Const, 0), op32(Opcode::Call, 0)]),
        ExecuteError::Bounds
    );
}

#[test]
fn cursors_stay_within_their_buffers() {
    let programs = [
        program(&[op(Opcode::Drop)]),
        program(&[op32(Opcode::I32Const, 1), op(Opcode::Dup), op(Opcode::Dup), op(Opcode::Halt)]),
        program(&[op(Opcode::Return)]),
        jump_table_program(7),
    ];
    for code in programs.iter() {
        let (_, env) = run_on(BufferEnvironment::new(8, 0, 2, 2), code);
        assert!(env.get_stack().get_pos() <= env.get_stack().len());
        assert!(env.get_call_stack().get_pos() <= env.get_call_stack().len());
        assert_eq!(env.get_stack().len(), 2);
        assert_eq!(env.get_call_stack().len(), 2);
    }
}

#[test]
fn the_budget_bounds_the_number_of_instructions() {
    let raw = image(&[], &program(&[op32(Opcode::Jmp, 0)]));
    let module = Module::from_raw(&raw).unwrap();
    let mut vm = VirtualMachine::new(&module, small_env());
    let e = vm.run_for(1000).unwrap_err();
    assert_eq!(e, ExecuteError::ExecutionLimit);
    assert_eq!(e.status(), -8);
}

#[test]
fn a_program_of_exactly_the_budget_halts() {
    let raw = image(&[], &program(&[op(Opcode::Nop), op(Opcode::Nop), op(Opcode::Halt)]));
    let module = Module::from_raw(&raw).unwrap();
    let mut vm = VirtualMachine::new(&module, small_env());
    assert_eq!(vm.run_for(0).unwrap_err(), ExecuteError::ExecutionLimit);
    assert_eq!(vm.run_for(2).unwrap_err(), ExecuteError::ExecutionLimit);
    assert!(vm.run_for(3).is_ok());
}

#[test]
fn step_and_execute_can_be_driven_by_hand() {
    let raw = image(&[], &program(&[op32(Opcode::I32Const, 6), op(Opcode::Dup), op(Opcode::Halt)]));
    let module = Module::from_raw(&raw).unwrap();
    let mut vm = VirtualMachine::new(&module, small_env());
    let mut code = Tape::from(module.code.to_vec());
    assert_eq!(vm.step(&mut code).unwrap(), Control::Continue);
    assert_eq!(code.get_pos(), 5);
    assert_eq!(vm.step(&mut code).unwrap(), Control::Continue);
    assert_eq!(vm.execute(&mut code, Opcode::I32Mul).unwrap(), Control::Continue);
    assert_eq!(stack_of(&vm.env), vec![36]);
    assert_eq!(vm.step(&mut code).unwrap(), Control::Halt);
    assert_eq!(vm.step(&mut code).unwrap_err(), ExecuteError::Bounds);
    assert_eq!(vm.execute(&mut code, Opcode::Never).unwrap_err(), ExecuteError::IllegalOpcode);
}

#[test]
fn deliver_native_result_pushes_a_value_or_nothing() {
    let raw = image(&[], &[]);
    let module = Module::from_raw(&raw).unwrap();
    let mut vm = VirtualMachine::new(&module, BufferEnvironment::new(0, 0, 1, 0));
    let code = Tape::from(Vec::<u8>::new());
    assert_eq!(vm.deliver_native_result(&code, Ok(None)).unwrap(), Control::Continue);
    assert_eq!(stack_of(&vm.env), Vec::<i64>::new());
    assert_eq!(vm.deliver_native_result(&code, Ok(Some(-5))).unwrap(), Control::Continue);
    assert_eq!(stack_of(&vm.env), vec![-5]);
    assert_eq!(
        vm.deliver_native_result(&code, Err(ExecuteError::InvalidInput)).unwrap_err(),
        ExecuteError::InvalidInput
    );
    assert_eq!(vm.deliver_native_result(&code, Ok(Some(1))).unwrap_err(), ExecuteError::Bounds);
    assert_eq!(stack_of(&vm.env), vec![-5]);
}

fn record(addr: u32, data: &[u8]) -> Vec<u8> {
    let mut v = addr.to_le_bytes().to_vec();
    v.extend_from_slice(&(data.len() as u32).to_le_bytes());
    v.extend_from_slice(data);
    v
}

fn replay(initializers: &[u8]) -> (ExecuteResult<()>, BufferEnvironment) {
    let raw = image(initializers, &[]);
    let module = Module::from_raw(&raw).unwrap();
    let mut vm = VirtualMachine::new(&module, BufferEnvironment::new(16, 2, 2, 2));
    let r = vm.run_memory_initializers();
    (r, vm.env)
}

#[test]
fn initializers_are_copied_into_memory_in_order() {
    let blob = [record(2, &[1, 2, 3]), record(4, &[9, 8]), record(15, &[7])].concat();
    let (r, env) = replay(&blob);
    assert!(r.is_ok());
    assert_eq!(env.get_memory(), &[0, 0, 1, 2, 9, 8, 0, 0, 0, 0, 0, 0, 0, 0, 0, 7]);
    assert_eq!(env.get_stack().get_pos(), 0);
    assert_eq!(env.get_slots(), &[0, 0]);
}

#[test]
fn no_initializers_change_nothing() {
    let (r, env) = replay(&[]);
    assert!(r.is_ok());
    assert_eq!(env.get_memory(), &[0u8; 16]);
}

#[test]
fn a_trailing_fragment_of_an_address_ends_the_replay() {
    let mut blob = record(0, &[5]);
    blob.extend_from_slice(&[1, 2, 3]);
    let (r, env) = replay(&blob);
    assert!(r.is_ok());
    assert_eq!(env.get_memory()[0], 5);
}

#[test]
fn a_record_cut_short_is_out_of_bounds() {
    let mut blob = record(0, &[5]);
    blob.extend_from_slice(&[1, 0, 0, 0, 2, 0]);
    assert_eq!(replay(&blob).0.unwrap_err(), ExecuteError::Bounds);
    let mut blob = 1u32.to_le_bytes().to_vec();
    blob.extend_from_slice(&4u32.to_le_bytes());
    blob.extend_from_slice(&[1, 2, 3]);
    assert_eq!(replay(&blob).0.unwrap_err(), ExecuteError::Bounds);
}

#[test]
fn a_record_must_fit_into_memory() {
    assert!(replay(&record(12, &[1, 2, 3, 4])).0.is_ok());
    assert_eq!(replay(&record(13, &[1, 2, 3, 4])).0.unwrap_err(), ExecuteError::Bounds);
    assert_eq!(replay(&record(16, &[])).0.unwrap_err(), ExecuteError::Bounds);
    assert!(replay(&record(15, &[])).0.is_ok());
    assert_eq!(replay(&record(0xFFFF_FFFF, &[1])).0.unwrap_err(), ExecuteError::Bounds);
}

#[test]
fn records_before_a_faulty_one_are_applied() {
    let blob = [record(0, &[1]), record(99, &[2])].concat();
    let (r, env) = replay(&blob);
    assert_eq!(r.unwrap_err(), ExecuteError::Bounds);
    assert_eq!(env.get_memory()[0], 1);
}

#[test]
fn buffer_environment_starts_zeroed() {
    let env = BufferEnvironment::new(3, 2, 4, 5);
    assert_eq!(env.get_memory(), &[0u8, 0, 0]);
    assert_eq!(env.get_slots(), &[0i64, 0]);
    assert_eq!(env.get_stack().len(), 4);
    assert_eq!(env.get_stack().get_pos(), 0);
    assert_eq!(env.get_call_stack().len(), 5);
    assert_eq!(env.get_call_stack().get_pos(), 0);
}

#[test]
fn buffer_environment_grows_and_resets() {
    let mut env = BufferEnvironment::new(2, 1, 1, 1);
    env.get_memory_mut()[1] = 9;
    env.grow_memory(3).unwrap();
    assert_eq!(env.get_memory(), &[0u8, 9, 0, 0, 0]);
    assert_eq!(env.grow_memory(usize::MAX).unwrap_err(), ExecuteError::MemoryLimit);
    assert_eq!(env.get_memory().len(), 5);
    env.get_slots_mut()[0] = 4;
    env.reset_slots(3).unwrap();
    assert_eq!(env.get_slots(), &[0i64, 0, 0]);
    assert_eq!(env.do_native_invoke(1).unwrap_err(), ExecuteError::InvalidNativeInvoke);
    assert!(env.trace_opcode(&Opcode::Nop).is_ok());
}
