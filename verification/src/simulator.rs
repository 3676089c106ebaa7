//! The simulator step loop: fetch, decode, execute, handle a pending trap,
//! advance the PC; tracks the executed-instruction count and an exit code
//! derived from the `exit` syscall convention (ecall with a7 = 93).

use vstd::prelude::*;

use crate::bus::{spec_bus_read_word, Bus};
use crate::cpu_core::{
    mstatus_on_trap_entry, spec_privilege_encoding, Core, RegName,
};
use crate::csr::{is_known_csr, CSR_MCAUSE, CSR_MEPC, CSR_MSTATUS, CSR_MTVEC};
use crate::decode::ExecutionReturnData;
use crate::decoder::{spec_decode_index, spec_table, Decoder};
use crate::disassemble::append_hex32;
use crate::execute::{erd_pc, execute_instruction, instr_post};
use crate::fetch::Fetcher;
use crate::trap::{trap_cause, trap_epc, trap_target};
use crate::{signed32, GprSigned, MachineInstruction, ProgramCounter, RvCoreError};
use vstd::string::StringExecFns;

verus! {

/// One sequence of collected lines extends another.
pub open spec fn log_extends(a: Seq<String>, b: Seq<String>) -> bool {
    a.len() <= b.len() && forall|i: int| 0 <= i < a.len() ==> b[i] == a[i]
}

/// The exit-code flag: `(code << 1) | 1` distinguishes "exit code 0" from
/// "no exit requested yet".
pub open spec fn spec_exit_encode(code: u32) -> u32 {
    (code << 1) | 1
}

/// The observable state of a simulator: the core, the bus, the encoded exit
/// code (0 while no exit was requested), the executed-instruction count and
/// whether disassembly tracing is on.
pub ghost struct SimView {
    pub core: Core,
    pub bus: Bus,
    pub exit_code: u32,
    pub run_instrctions: u64,
    pub disasm: bool,
}

/// How one simulator step relates the state before to the state after.
/// The word at the PC is fetched and decoded; the instruction executes; a
/// pending trap is consumed, may set the exit code (ecall with a7 = 93),
/// saves mstatus and dispatches to the handler; the PC advances to the
/// override, the handler, or `pc + 4`.  The first error halts the step with
/// the state the failing phase left.
pub open spec fn spec_step_rel(s0: SimView, s1: SimView, r: Result<(), RvCoreError>) -> bool {
    let pc = s0.core.spec_pc();
    &&& s1.disasm == s0.disasm
    &&& match spec_bus_read_word(s0.bus, pc as usize) {
        Err(e) => r == Err::<(), RvCoreError>(RvCoreError::CpuPeripheralsError(e)) && s1 == s0,
        Ok(word) => match spec_decode_index(spec_table(), word) {
            None => r == Err::<(), RvCoreError>(RvCoreError::InvalidInstruction(word)) && s1
                == s0,
            Some(i) => exists|c1: Core, b1: Bus, er: Result<Option<ExecutionReturnData>, RvCoreError>|
                {
                    &&& #[trigger] instr_post(
                        spec_table()[i].kind,
                        word,
                        s0.core,
                        s0.bus,
                        c1,
                        b1,
                        er,
                        s0.disasm,
                    )
                    &&& s1.bus == b1
                    &&& match er {
                        Err(e) => {
                            &&& r == Err::<(), RvCoreError>(e)
                            &&& s1.core == c1
                            &&& s1.exit_code == s0.exit_code
                            &&& s1.run_instrctions == s0.run_instrctions
                        },
                        Ok(o) => {
                            let next_count = vstd::wrapping::u64_specs::wrapping_add(
                                s0.run_instrctions,
                                1,
                            );
                            let new_pc0 = match erd_pc(o) {
                                Some(p) => p,
                                None => vstd::wrapping::u32_specs::wrapping_add(pc, 4u32),
                            };
                            &&& s1.run_instrctions == next_count
                            &&& match c1.spec_trap() {
                                None => {
                                    &&& r == Ok::<(), RvCoreError>(())
                                    &&& s1.exit_code == s0.exit_code
                                    &&& s1.core.spec_pc() == new_pc0
                                    &&& s1.core.spec_regs() == c1.spec_regs()
                                    &&& s1.core.spec_csr() == c1.spec_csr()
                                    &&& s1.core.spec_trap() == c1.spec_trap()
                                    &&& s1.core.spec_mode() == c1.spec_mode()
                                },
                                Some(t) => {
                                    let exit1 = if Core::spec_is_ecall(t) && c1.spec_regs()[17]
                                        == 93 {
                                        spec_exit_encode(c1.spec_regs()[10])
                                    } else {
                                        s0.exit_code
                                    };
                                    let cs = c1.spec_csr();
                                    let saved = mstatus_on_trap_entry(
                                        cs.spec_read(CSR_MSTATUS),
                                        spec_privilege_encoding(c1.spec_mode()),
                                    );
                                    let cause = trap_cause(t);
                                    let tvec = cs.spec_read(CSR_MTVEC);
                                    let tvm = tvec & 0b11;
                                    &&& s1.exit_code == exit1
                                    &&& s1.core.spec_regs() == c1.spec_regs()
                                    &&& s1.core.spec_trap() is None
                                    &&& s1.core.spec_mode() is Machine
                                    &&& s1.core.spec_csr().spec_read(CSR_MSTATUS) == saved
                                    &&& forall|a: u16|
                                        is_known_csr(a) && a != CSR_MSTATUS && a != CSR_MEPC && a
                                            != CSR_MCAUSE ==> #[trigger] s1.core.spec_csr().spec_read(
                                            a,
                                        ) == cs.spec_read(a)
                                    &&& if tvm == 0 || tvm == 1 {
                                        &&& s1.core.spec_csr().spec_read(CSR_MEPC) == trap_epc(
                                            t,
                                            pc,
                                            new_pc0,
                                        )
                                        &&& s1.core.spec_csr().spec_read(CSR_MCAUSE) == cause
                                        &&& r == Ok::<(), RvCoreError>(())
                                        &&& s1.core.spec_pc() == trap_target(tvec, cause)
                                    } else {
                                        &&& s1.core.spec_csr().spec_read(CSR_MEPC) == cs.spec_read(
                                            CSR_MEPC,
                                        )
                                        &&& s1.core.spec_csr().spec_read(CSR_MCAUSE)
                                            == cs.spec_read(CSR_MCAUSE)
                                        &&& r == Err::<(), RvCoreError>(
                                            RvCoreError::InvalidTrapMode(tvm),
                                        )
                                        &&& s1.core.spec_pc() == pc
                                    }
                                },
                            }
                        },
                    }
                },
        },
    }
}

/// The states reachable from `s0` in `n` steps whose results were all `Ok`
/// and whose starting states had no exit requested.
pub open spec fn spec_reachable(s0: SimView, s1: SimView, n: nat) -> bool
    decreases n,
{
    if n == 0 {
        s1 == s0
    } else {
        exists|mid: SimView|
            spec_reachable(s0, mid, (n - 1) as nat) && mid.exit_code == 0
                && #[trigger] spec_step_rel(mid, s1, Ok::<(), RvCoreError>(()))
    }
}

/// The simulator: a core, a decoder and a bus, with the run bookkeeping.
pub struct Simulator {
    core: Core,
    decoder: Decoder,
    bus: Bus,
    exit_code: u32,
    disasm_enabled: bool,
    log_lines: Vec<String>,
    run_instrctions: u64,
}

impl Simulator {
    /// The observable state.
    pub closed spec fn view(self) -> SimView {
        SimView {
            core: self.core,
            bus: self.bus,
            exit_code: self.exit_code,
            run_instrctions: self.run_instrctions,
            disasm: self.disasm_enabled,
        }
    }

    /// The disassembly lines collected so far.
    pub closed spec fn spec_log(self) -> Seq<String> {
        self.log_lines@
    }

    /// The decoder holds the full decode table.
    pub closed spec fn decoder_wf(self) -> bool {
        self.decoder.wf()
    }

    /// Well-formedness: a well-formed core and the full decode table.
    pub open spec fn wf(self) -> bool {
        &&& self.view().core.wf()
        &&& self.decoder_wf()
    }

    /// Creates a simulator over the given bus, with a power-on core, no exit
    /// requested, nothing executed and tracing off.
    pub fn new(bus: Bus) -> (r: Self)
        ensures
            r.wf(),
            r.view().bus == bus,
            r.view().core.spec_pc() == 0,
            forall|i: int| 0 <= i < 32 ==> r.view().core.spec_regs()[i] == 0,
            forall|a: u16|
                is_known_csr(a) ==> #[trigger] r.view().core.spec_csr().spec_read(a)
                    == crate::csr::csr_reset_value(a),
            r.view().core.spec_trap() is None,
            r.view().core.spec_mode() is Machine,
            r.view().exit_code == 0,
            r.view().run_instrctions == 0,
            r.view().disasm == false,
            r.spec_log() == Seq::<String>::empty(),
    {
        Self {
            core: Core::new(),
            decoder: Decoder::new(),
            bus,
            exit_code: 0,
            disasm_enabled: false,
            log_lines: Vec::new(),
            run_instrctions: 0,
        }
    }

    /// Turns on per-instruction disassembly tracing.
    pub fn enable_instr_trace(&mut self)
        ensures
            final(self).wf() == old(self).wf(),
            final(self).view() == (SimView { disasm: true, ..old(self).view() }),
            final(self).spec_log() == old(self).spec_log(),
    {
        self.disasm_enabled = true;
    }

    /// Removes and returns the disassembly lines collected so far.
    pub fn take_instr_trace(&mut self) -> (r: Vec<String>)
        ensures
            final(self).wf() == old(self).wf(),
            final(self).view() == old(self).view(),
            r@ == old(self).spec_log(),
            final(self).spec_log() == Seq::<String>::empty(),
    {
        let mut out: Vec<String> = Vec::new();
        core::mem::swap(&mut out, &mut self.log_lines);
        out
    }

    /// Loads a raw program image into the device covering `base_addr`, as
    /// one bulk write.
    pub fn load_bin_program(&mut self, bin_program: &[u8], base_addr: usize) -> (r: Result<
        (),
        RvCoreError,
    >)
        requires
            old(self).wf(),
        ensures
            final(self).wf(),
            r == Ok::<(), RvCoreError>(()),
            final(self).view().core == old(self).view().core,
            final(self).view().exit_code == old(self).view().exit_code,
            final(self).view().run_instrctions == old(self).view().run_instrctions,
            final(self).view().disasm == old(self).view().disasm,
            final(self).spec_log() == old(self).spec_log(),
            match crate::bus::spec_find_device(old(self).view().bus.entries(), base_addr) {
                Some(i) => {
                    &&& final(self).view().bus.entries().len() == old(self).view().bus.entries().len()
                    &&& forall|j: int|
                        0 <= j < old(self).view().bus.entries().len() && j != i ==> final(self).view().bus.entries()[j] == old(self).view().bus.entries()[j]
                    &&& (old(self).view().bus.entries()[i].device matches
                        crate::bus::DeviceHandler::Mem(m) ==> (final(self).view().bus.entries()[i].device matches crate::bus::DeviceHandler::Mem(m2)
                        && m2.spec_base() == m.spec_base() && (if bin_program@.len()
                        <= m.spec_data().len() && m.can_access(base_addr, bin_program@.len() as int) {
                        m2.spec_data().len() == m.spec_data().len() && (forall|k: int|
                            0 <= k < m.spec_data().len() ==> m2.spec_data()[k] == (
                            if base_addr - m.spec_base() <= k < base_addr - m.spec_base()
                                + bin_program@.len() {
                                bin_program@[k - (base_addr - m.spec_base())]
                            } else {
                                m.spec_data()[k]
                            }))
                    } else {
                        m2.spec_data() == m.spec_data()
                    })))
                },
                None => final(self).view().bus == old(self).view().bus,
            },
    {
        let _ = self.bus.write(base_addr, bin_program);
        Ok(())
    }

    /// Sets the reset vector: the address of the first instruction to fetch.
    pub fn set_reset_vector(&mut self, pc: ProgramCounter)
        requires
            old(self).wf(),
        ensures
            final(self).wf(),
            final(self).view().core.spec_pc() == pc,
            final(self).view().core.spec_regs() == old(self).view().core.spec_regs(),
            final(self).view().core.spec_csr() == old(self).view().core.spec_csr(),
            final(self).view().core.spec_trap() == old(self).view().core.spec_trap(),
            final(self).view().core.spec_mode() == old(self).view().core.spec_mode(),
            final(self).view().bus == old(self).view().bus,
            final(self).view().exit_code == old(self).view().exit_code,
            final(self).view().run_instrctions == old(self).view().run_instrctions,
            final(self).view().disasm == old(self).view().disasm,
            final(self).spec_log() == old(self).spec_log(),
    {
        self.core.set_pc(pc);
    }

    /// The core, for inspection.
    pub fn get_core(&self) -> (r: &Core)
        ensures
            *r == self.view().core,
    {
        &self.core
    }

    /// The core, for preparing a run.
    pub fn get_core_mut(&mut self) -> (r: &mut Core)
        ensures
            *r == old(self).view().core,
            final(self).view().core == *final(r),
            final(self).view().bus == old(self).view().bus,
            final(self).view().exit_code == old(self).view().exit_code,
            final(self).view().run_instrctions == old(self).view().run_instrctions,
            final(self).view().disasm == old(self).view().disasm,
            final(self).spec_log() == old(self).spec_log(),
            final(self).decoder_wf() == old(self).decoder_wf(),
    {
        &mut self.core
    }

    /// The bus, for inspection.
    pub fn get_bus(&self) -> (r: &Bus)
        ensures
            *r == self.view().bus,
    {
        &self.bus
    }

    /// The bus, for preparing a run.
    pub fn get_bus_mut(&mut self) -> (r: &mut Bus)
        ensures
            *r == old(self).view().bus,
            final(self).view().bus == *final(r),
            final(self).view().core == old(self).view().core,
            final(self).view().exit_code == old(self).view().exit_code,
            final(self).view().run_instrctions == old(self).view().run_instrctions,
            final(self).view().disasm == old(self).view().disasm,
            final(self).spec_log() == old(self).spec_log(),
            final(self).wf() == old(self).wf(),
    {
        &mut self.bus
    }

    /// The number of instructions executed so far.
    pub fn get_run_instrctions(&self) -> (r: u64)
        ensures
            r == self.view().run_instrctions,
    {
        self.run_instrctions
    }

    /// The exit code the simulated program requested, decoded from the flag;
    /// 0 while no exit was requested.
    pub fn get_exit_code(&self) -> (r: GprSigned)
        ensures
            r == signed32(crate::execute::sra32(self.view().exit_code, 1)),
    {
        let bits = self.exit_code;
        let shifted: u32 = (bits >> 1) | (
        if (bits & 0x8000_0000) != 0 {
            !(0xFFFF_FFFFu32 >> 1)
        } else {
            0
        });
        let out = #[verifier::truncate] (shifted as GprSigned);
        proof {
            crate::lemma_bits_to_signed32(out, shifted);
        }
        out
    }

    /// Runs at most `steps` instructions, or (unbounded mode) until the
    /// exit-code flag has been set — checked before executing the next step,
    /// so the instruction after the qualifying ecall never runs.  The first
    /// error halts the run.  A successful run stops only because the step
    /// count was exhausted or the exit flag is set; unbounded mode carries an
    /// explicit `u64::MAX` step budget so that the loop provably terminates,
    /// beyond any practical run length.
    pub fn run(&mut self, steps: Option<usize>) -> (r: Result<(), RvCoreError>)
        requires
            old(self).wf(),
        ensures
            final(self).wf(),
            log_extends(old(self).spec_log(), final(self).spec_log()),
            r is Ok ==> exists|k: nat|
                {
                    &&& #[trigger] spec_reachable(old(self).view(), final(self).view(), k)
                    &&& final(self).view().run_instrctions
                        == vstd::wrapping::u64_specs::wrapping_add(
                        old(self).view().run_instrctions,
                        k as u64,
                    )
                    &&& match steps {
                        Some(n) => k <= n && (k == n || final(self).view().exit_code != 0),
                        None => k <= u64::MAX && (k == u64::MAX || final(self).view().exit_code
                            != 0),
                    }
                },
            r matches Err(e) ==> exists|mid: SimView, k: nat|
                {
                    &&& #[trigger] spec_reachable(old(self).view(), mid, k)
                    &&& mid.exit_code == 0
                    &&& spec_step_rel(mid, final(self).view(), Err(e))
                    &&& match steps {
                        Some(n) => k < n,
                        None => k < u64::MAX,
                    }
                },
    {
        let budget: u64 = match steps {
            Some(n) => n as u64,
            None => u64::MAX,
        };
        let ghost v0 = self.view();
        let mut done: u64 = 0;
        let ghost mut k: nat = 0nat;
        proof {
            assert(spec_reachable(v0, self.view(), 0nat));
        }
        while done < budget && self.exit_code == 0
            invariant
                self.wf(),
                v0 == old(self).view(),
                k == done,
                done <= budget,
                spec_reachable(v0, self.view(), k),
                self.view().run_instrctions == vstd::wrapping::u64_specs::wrapping_add(
                    v0.run_instrctions,
                    done,
                ),
                log_extends(old(self).spec_log(), self.spec_log()),
                match steps {
                    Some(n) => budget == n as u64,
                    None => budget == u64::MAX,
                },
            decreases budget - done,
        {
            let ghost vmid = self.view();
            match self.step() {
                Ok(()) => {
                    proof {
                        assert(spec_step_rel(vmid, self.view(), Ok::<(), RvCoreError>(())));
                        assert(spec_reachable(v0, self.view(), (k + 1) as nat));
                        k = (k + 1) as nat;
                    }
                },
                Err(e) => {
                    proof {
                        assert(spec_reachable(v0, vmid, k));
                        assert(spec_step_rel(vmid, self.view(), Err::<(), RvCoreError>(e)));
                    }
                    return Err(e);
                },
            }
            done = done + 1;
        }
        proof {
            assert(spec_reachable(v0, self.view(), k));
            assert(done == budget || self.view().exit_code != 0);
        }
        Ok(())
    }

    /// Appends one disassembly line for a traced instruction.
    fn log_line(&mut self, instruction: MachineInstruction, text: &str)
        ensures
            final(self).view() == old(self).view(),
            final(self).wf() == old(self).wf(),
            log_extends(old(self).spec_log(), final(self).spec_log()),
    {
        let mut line = String::new();
        append_hex32(&mut line, self.core.get_pc());
        line.append(" (");
        append_hex32(&mut line, instruction);
        line.append(") ");
        line.append(text);
        self.log_lines.push(line);
        proof {
            assert(log_extends(old(self).spec_log(), self.spec_log()));
        }
    }

    /// Executes one decoded instruction, collecting its disassembly line
    /// when tracing is on.
    fn execute(&mut self, kind: crate::decoder::InstructionKind, instruction: MachineInstruction)
        -> (r: Result<Option<ExecutionReturnData>, RvCoreError>)
        requires
            old(self).wf(),
        ensures
            final(self).wf(),
            instr_post(
                kind,
                instruction,
                old(self).view().core,
                old(self).view().bus,
                final(self).view().core,
                final(self).view().bus,
                r,
                old(self).view().disasm,
            ),
            final(self).view().exit_code == old(self).view().exit_code,
            final(self).view().run_instrctions == old(self).view().run_instrctions,
            final(self).view().disasm == old(self).view().disasm,
            log_extends(old(self).spec_log(), final(self).spec_log()),
    {
        let disasm = self.disasm_enabled;
        let rdata = execute_instruction(kind, instruction, &mut self.core, &mut self.bus, disasm);

        if disasm {
            if let Ok(Some(rd)) = &rdata {
                if let Some(text) = &rd.disasm {
                    let owned = text.clone();
                    self.log_line(instruction, owned.as_str());
                }
            }
        }
        rdata
    }

    /// The PC that takes effect after a step: the override if the executor
    /// requested one, else `pc + 4` (modular).
    fn calc_new_pc(&self, ret_data: &Option<ExecutionReturnData>) -> (r: ProgramCounter)
        ensures
            r == (match erd_pc(*ret_data) {
                Some(p) => p,
                None => vstd::wrapping::u32_specs::wrapping_add(self.view().core.spec_pc(), 4u32),
            }),
    {
        match ret_data {
            Some(rdata) => match rdata.pc {
                Some(pc) => pc,
                None => self.core.get_pc().wrapping_add(4),
            },
            None => self.core.get_pc().wrapping_add(4),
        }
    }

    /// One step: fetch, decode, execute, consume a pending trap, update the
    /// PC.
    fn step(&mut self) -> (r: Result<(), RvCoreError>)
        requires
            old(self).wf(),
        ensures
            final(self).wf(),
            spec_step_rel(old(self).view(), final(self).view(), r),
            log_extends(old(self).spec_log(), final(self).spec_log()),
    {
        let ghost v0 = self.view();
        let pc = self.core.get_pc();

        // step 1. fetch the instruction
        let instruction = {
            let mem = match self.bus.find_device(pc as usize) {
                Ok(m) => m,
                Err(e) => {
                    return Err(RvCoreError::CpuPeripheralsError(e));
                },
            };
            match Fetcher::fetch(pc, mem) {
                Ok(w) => w,
                Err(e) => {
                    return Err(e);
                },
            }
        };

        // step 2. decode the instruction
        let decoded = match self.decoder.decode(instruction) {
            Ok(d) => d,
            Err(e) => {
                return Err(e);
            },
        };

        // step 3. execute the instruction
        let ghost c0 = self.core;
        let ghost b0 = self.bus;
        let ret_data = self.execute(decoded.kind, instruction);
        let ghost c1 = self.core;
        let ghost b1 = self.bus;
        let ghost er = ret_data;
        let mut ret_data = match ret_data {
            Ok(o) => o,
            Err(e) => {
                proof {
                    assert(spec_step_rel(v0, self.view(), Err::<(), RvCoreError>(e)));
                }
                return Err(e);
            },
        };

        self.run_instrctions = self.run_instrctions.wrapping_add(1);

        // step 4. consume and process a pending trap
        if let Some(trap) = self.core.take_trap() {
            let new_pc = self.calc_new_pc(&ret_data);

            if Core::is_ecall(&trap) {
                let a7 = self.core.read_register(RegName::A7.to_index()).unwrap();
                if a7 == 93 {
                    let a0 = self.core.read_register(RegName::A0.to_index()).unwrap();
                    self.exit_code = (a0 << 1) | 1;
                }
            }

            ret_data = match self.core.handle_trap(&trap, new_pc) {
                Ok(rd) => rd,
                Err(e) => {
                    proof {
                        assert(spec_step_rel(v0, self.view(), Err::<(), RvCoreError>(e)));
                    }
                    return Err(e);
                },
            };
        }

        // step 5. update the PC
        let final_pc = self.calc_new_pc(&ret_data);
        self.core.set_pc(final_pc);

        proof {
            assert(spec_step_rel(v0, self.view(), Ok::<(), RvCoreError>(())));
        }
        Ok(())
    }
}

} // verus!
