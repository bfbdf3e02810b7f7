use hexagon_e::environment::{BufferEnvironment, Environment};
use hexagon_e::error::{ExecuteError, ExecuteResult};
use hexagon_e::module::{Module, Opcode};
use hexagon_e::tape::Tape;
use hexagon_e::vm::VirtualMachine;
use std::cell::{Cell, RefCell};

/// A host with native functions, a step budget and a log of what it was
/// told.
struct Host {
    inner: BufferEnvironment,
    fuel: Cell<u64>,
    memory_limit: usize,
    slot_limit: usize,
    opcodes: RefCell<Vec<Opcode>>,
    calls: RefCell<Vec<(usize, usize)>>,
    loads: RefCell<Vec<(usize, usize, u64)>>,
    inits: RefCell<Vec<(usize, Vec<u8>)>>,
}

impl Host {
    fn new(fuel: u64) -> Host {
        Host {
            inner: BufferEnvironment::new(64, 4, 8, 8),
            fuel: Cell::new(fuel),
            memory_limit: 128,
            slot_limit: 16,
            opcodes: RefCell::new(vec![]),
            calls: RefCell::new(vec![]),
            loads: RefCell::new(vec![]),
            inits: RefCell::new(vec![]),
        }
    }
}

impl Environment for Host {
    fn memory(&self) -> vstd::seq::Seq<u8> {
        unreachable!()
    }

    fn slots(&self) -> vstd::seq::Seq<i64> {
        unreachable!()
    }

    fn stack(&self) -> Tape<i64> {
        unreachable!()
    }

    fn call_stack(&self) -> Tape<i64> {
        unreachable!()
    }

    fn has_native_functions() -> bool {
        true
    }

    fn watches_opcodes() -> bool {
        true
    }

    fn get_memory(&self) -> &[u8] {
        self.inner.get_memory()
    }

    fn get_memory_mut(&mut self) -> &mut [u8] {
        self.inner.get_memory_mut()
    }

    fn grow_memory(&mut self, len_inc: usize) -> ExecuteResult<()> {
        if len_inc > self.memory_limit - self.inner.get_memory().len() {
            return Err(ExecuteError::MemoryLimit);
        }
        self.inner.grow_memory(len_inc)
    }

    fn get_slots(&self) -> &[i64] {
        self.inner.get_slots()
    }

    fn get_slots_mut(&mut self) -> &mut [i64] {
        self.inner.get_slots_mut()
    }

    fn reset_slots(&mut self, len: usize) -> ExecuteResult<()> {
        if len > self.slot_limit {
            return Err(ExecuteError::SlotLimit);
        }
        self.inner.reset_slots(len)
    }

    fn get_stack(&self) -> &Tape<i64> {
        self.inner.get_stack()
    }

    fn get_stack_mut(&mut self) -> &mut Tape<i64> {
        self.inner.get_stack_mut()
    }

    fn get_call_stack(&self) -> &Tape<i64> {
        self.inner.get_call_stack()
    }

    fn get_call_stack_mut(&mut self) -> &mut Tape<i64> {
        self.inner.get_call_stack_mut()
    }

    fn do_native_invoke(&mut self, id: usize) -> ExecuteResult<Option<i64>> {
        match id {
            0 => Ok(None),
            1 => Ok(Some(1234)),
            2 => {
                let top = *self.inner.get_stack_mut().prev()?;
                self.inner.get_memory_mut()[0] = top as u8;
                Ok(Some(top * 2))
            }
            3 => Err(ExecuteError::Generic),
            4 => Err(ExecuteError::FatalSignal),
            5 => Err(ExecuteError::InvalidInput),
            _ => Err(ExecuteError::InvalidNativeInvoke),
        }
    }

    fn trace_mem_init(&self, start: usize, data: &[u8]) {
        self.inits.borrow_mut().push((start, data.to_vec()));
    }

    fn trace_opcode(&self, op: &Opcode) -> ExecuteResult<()> {
        if self.fuel.get() == 0 {
            return Err(ExecuteError::ExecutionLimit);
        }
        self.fuel.set(self.fuel.get() - 1);
        self.opcodes.borrow_mut().push(*op);
        Ok(())
    }

    fn trace_call(&self, target: usize, n_locals: usize) {
        self.calls.borrow_mut().push((target, n_locals));
    }

    fn trace_load(&self, offset: usize, addr: usize, val: u64) {
        self.loads.borrow_mut().push((offset, addr, val));
    }
}

fn op(o: Opcode) -> Vec<u8> {
    vec![o.to_raw()]
}

fn op32(o: Opcode, imm: u32) -> Vec<u8> {
    let mut v = vec![o.to_raw()];
    v.extend_from_slice(&imm.to_le_bytes());
    v
}

fn image(initializers: &[u8], code: &[Vec<u8>]) -> Vec<u8> {
    let mut v = (initializers.len() as u32).to_le_bytes().to_vec();
    v.extend_from_slice(initializers);
    v.extend_from_slice(&code.concat());
    v
}

fn run_with(host: Host, code: &[Vec<u8>]) -> (ExecuteResult<()>, Host) {
    let raw = image(&[], code);
    let module = Module::from_raw(&raw).unwrap();
    let mut vm = VirtualMachine::new(&module, host);
    let r = vm.run();
    (r, vm.env)
}

fn stack_of(host: &Host) -> Vec<i64> {
    let s = host.get_stack();
    (0..s.get_pos()).map(|i| *s.at(i).unwrap()).collect()
}

#[test]
fn native_function_without_a_value_leaves_the_stack() {
    let (r, host) = run_with(
        Host::new(100),
        &[op32(Opcode::I32Const, 5), op32(Opcode::NativeInvoke, 0), op(Opcode::Halt)],
    );
    assert!(r.is_ok());
    assert_eq!(stack_of(&host), vec![5]);
}

#[test]
fn native_function_with_a_value_pushes_it() {
    let (r, host) = run_with(
        Host::new(100),
        &[op32(Opcode::I32Const, 5), op32(Opcode::NativeInvoke, 1), op(Opcode::Halt)],
    );
    assert!(r.is_ok());
    assert_eq!(stack_of(&host), vec![5, 1234]);
}

#[test]
fn native_function_may_use_the_resources() {
    let (r, host) = run_with(
        Host::new(100),
        &[op32(Opcode::I32Const, 21), op32(Opcode::NativeInvoke, 2), op(Opcode::Halt)],
    );
    assert!(r.is_ok());
    assert_eq!(stack_of(&host), vec![42]);
    assert_eq!(host.get_memory()[0], 21);
}

#[test]
fn errors_of_native_functions_abort_the_run() {
    let fail = |id: u32| run_with(Host::new(100), &[op32(Opcode::NativeInvoke, id)]).0.unwrap_err();
    assert_eq!(fail(3), ExecuteError::Generic);
    assert_eq!(fail(3).status(), -1);
    assert_eq!(fail(4), ExecuteError::FatalSignal);
    assert_eq!(fail(4).status(), -11);
    assert_eq!(fail(5), ExecuteError::InvalidInput);
    assert_eq!(fail(5).status(), -7);
    assert_eq!(fail(77), ExecuteError::InvalidNativeInvoke);
}

#[test]
fn the_host_is_asked_before_each_instruction() {
    let (r, host) = run_with(
        Host::new(100),
        &[op32(Opcode::I32Const, 5), op(Opcode::Dup), op(Opcode::I32Add), op(Opcode::Halt)],
    );
    assert!(r.is_ok());
    assert_eq!(
        *host.opcodes.borrow(),
        vec![Opcode::I32Const, Opcode::Dup, Opcode::I32Add, Opcode::Halt]
    );
    assert_eq!(host.fuel.get(), 96);
}

#[test]
fn the_host_can_stop_a_run_that_would_not_end() {
    let (r, host) = run_with(Host::new(50), &[op32(Opcode::Jmp, 0)]);
    let e = r.unwrap_err();
    assert_eq!(e, ExecuteError::ExecutionLimit);
    assert_eq!(e.status(), -8);
    assert_eq!(host.opcodes.borrow().len(), 50);
}

#[test]
fn a_refused_instruction_is_not_executed() {
    let (r, host) = run_with(Host::new(1), &[op32(Opcode::I32Const, 5), op(Opcode::Dup)]);
    assert_eq!(r.unwrap_err(), ExecuteError::ExecutionLimit);
    assert_eq!(stack_of(&host), vec![5]);
}

#[test]
fn an_illegal_opcode_is_not_shown_to_the_host() {
    let (r, host) = run_with(Host::new(10), &[vec![0u8]]);
    assert_eq!(r.unwrap_err(), ExecuteError::IllegalOpcode);
    assert_eq!(r.unwrap_err().status(), -4);
    assert!(host.opcodes.borrow().is_empty());
}

#[test]
fn the_host_may_refuse_to_grow_memory() {
    let (r, host) = run_with(
        Host::new(10),
        &[op32(Opcode::I32Const, 64), op(Opcode::GrowMemory), op(Opcode::Halt)],
    );
    assert!(r.is_ok());
    assert_eq!(host.get_memory().len(), 128);
    assert_eq!(stack_of(&host), vec![64]);
    let (r, host) = run_with(
        Host::new(10),
        &[op32(Opcode::I32Const, 65), op(Opcode::GrowMemory), op(Opcode::Halt)],
    );
    assert_eq!(r.unwrap_err(), ExecuteError::MemoryLimit);
    assert_eq!(host.get_memory().len(), 64);
}

#[test]
fn the_host_may_refuse_to_reset_the_slots() {
    let (r, host) = run_with(Host::new(10), &[op32(Opcode::ResetSlots, 16), op(Opcode::Halt)]);
    assert!(r.is_ok());
    assert_eq!(host.get_slots().len(), 16);
    let (r, _) = run_with(Host::new(10), &[op32(Opcode::ResetSlots, 17), op(Opcode::Halt)]);
    let e = r.unwrap_err();
    assert_eq!(e, ExecuteError::SlotLimit);
    assert_eq!(e.status(), -10);
}

#[test]
fn a_refused_reset_still_blows_the_fuse() {
    let (r, _) = run_with(
        Host::new(10),
        &[op32(Opcode::ResetSlots, 17), op32(Opcode::ResetSlots, 1)],
    );
    assert_eq!(r.unwrap_err(), ExecuteError::SlotLimit);
    let raw = image(&[], &[op32(Opcode::ResetSlots, 17)]);
    let module = Module::from_raw(&raw).unwrap();
    let mut vm = VirtualMachine::new(&module, Host::new(10));
    assert_eq!(vm.run().unwrap_err(), ExecuteError::SlotLimit);
    assert_eq!(vm.run().unwrap_err(), ExecuteError::Fuse);
}

#[test]
fn calls_and_loads_are_traced() {
    // 0: I32Const 3; 5: I32Const 21; 10: I32Const 2; 15: Call 1; 20: Halt
    // 21: GetLocal 0; 26: I32Load8S 4; 31: Return
    let mut host = Host::new(100);
    host.get_memory_mut()[7] = 0x80;
    let (r, host) = run_with(
        host,
        &[
            op32(Opcode::I32Const, 3),
            op32(Opcode::I32Const, 21),
            op32(Opcode::I32Const, 2),
            op32(Opcode::Call, 1),
            op(Opcode::Halt),
            op32(Opcode::GetLocal, 0),
            op32(Opcode::I32Load8S, 4),
            op(Opcode::Return),
        ],
    );
    assert!(r.is_ok());
    assert_eq!(stack_of(&host), vec![-128]);
    assert_eq!(*host.calls.borrow(), vec![(21, 2)]);
    assert_eq!(*host.loads.borrow(), vec![(4, 3, 0xFFFF_FFFF_FFFF_FF80)]);
}

#[test]
fn a_load_that_fails_is_not_traced() {
    let (r, host) = run_with(
        Host::new(100),
        &[op32(Opcode::I32Const, 64), op32(Opcode::I32Load8U, 0)],
    );
    assert_eq!(r.unwrap_err(), ExecuteError::Bounds);
    assert!(host.loads.borrow().is_empty());
}

#[test]
fn initializer_records_are_traced() {
    let mut blob = vec![];
    for (addr, data) in [(2u32, vec![1u8, 2]), (10, vec![3])] {
        blob.extend_from_slice(&addr.to_le_bytes());
        blob.extend_from_slice(&(data.len() as u32).to_le_bytes());
        blob.extend_from_slice(&data);
    }
    let raw = image(&blob, &[]);
    let module = Module::from_raw(&raw).unwrap();
    let mut vm = VirtualMachine::new(&module, Host::new(0));
    assert!(vm.run_memory_initializers().is_ok());
    assert_eq!(*vm.env.inits.borrow(), vec![(2, vec![1, 2]), (10, vec![3])]);
    assert_eq!(&vm.env.get_memory()[..12], &[0, 0, 1, 2, 0, 0, 0, 0, 0, 0, 3, 0]);
}
