use vstd::prelude::*;

verus! {

/// Width of the canonical register snapshot: sixteen general purpose
/// registers followed by eight vector registers.
pub const REGISTER_COUNT: usize = 24;

/// The canonical x86-64 register enumeration used to index a snapshot.
/// It does not depend on any calling convention or operating system.
#[derive(Clone, Copy, Debug, PartialEq, Eq, Structural)]
pub enum Register {
    Rax,
    Rcx,
    Rdx,
    Rbx,
    Rsp,
    Rbp,
    Rsi,
    Rdi,
    R8,
    R9,
    R10,
    R11,
    R12,
    R13,
    R14,
    R15,
    Xmm0,
    Xmm1,
    Xmm2,
    Xmm3,
    Xmm4,
    Xmm5,
    Xmm6,
    Xmm7,
}

impl Register {
    /// Position of the register in a snapshot.
    pub open spec fn slot(self) -> int {
        match self {
            Register::Rax => 0,
            Register::Rcx => 1,
            Register::Rdx => 2,
            Register::Rbx => 3,
            Register::Rsp => 4,
            Register::Rbp => 5,
            Register::Rsi => 6,
            Register::Rdi => 7,
            Register::R8 => 8,
            Register::R9 => 9,
            Register::R10 => 10,
            Register::R11 => 11,
            Register::R12 => 12,
            Register::R13 => 13,
            Register::R14 => 14,
            Register::R15 => 15,
            Register::Xmm0 => 16,
            Register::Xmm1 => 17,
            Register::Xmm2 => 18,
            Register::Xmm3 => 19,
            Register::Xmm4 => 20,
            Register::Xmm5 => 21,
            Register::Xmm6 => 22,
            Register::Xmm7 => 23,
        }
    }

    pub open spec fn is_vector(self) -> bool {
        self.slot() >= 16
    }

    pub fn index(&self) -> (r: usize)
        ensures
            r as int == self.slot(),
            r < REGISTER_COUNT,
    {
        match *self {
            Register::Rax => 0,
            Register::Rcx => 1,
            Register::Rdx => 2,
            Register::Rbx => 3,
            Register::Rsp => 4,
            Register::Rbp => 5,
            Register::Rsi => 6,
            Register::Rdi => 7,
            Register::R8 => 8,
            Register::R9 => 9,
            Register::R10 => 10,
            Register::R11 => 11,
            Register::R12 => 12,
            Register::R13 => 13,
            Register::R14 => 14,
            Register::R15 => 15,
            Register::Xmm0 => 16,
            Register::Xmm1 => 17,
            Register::Xmm2 => 18,
            Register::Xmm3 => 19,
            Register::Xmm4 => 20,
            Register::Xmm5 => 21,
            Register::Xmm6 => 22,
            Register::Xmm7 => 23,
        }
    }
}

/// The general purpose registers and instruction pointer as an x86-64 signal
/// context saves them, read out by the embedding program.
#[derive(Clone, Copy, Debug, PartialEq, Eq, Structural)]
pub struct GeneralRegisters {
    pub rax: u64,
    pub rbx: u64,
    pub rcx: u64,
    pub rdx: u64,
    pub rdi: u64,
    pub rsi: u64,
    pub rbp: u64,
    pub rsp: u64,
    pub r8: u64,
    pub r9: u64,
    pub r10: u64,
    pub r11: u64,
    pub r12: u64,
    pub r13: u64,
    pub r14: u64,
    pub r15: u64,
    pub rip: u64,
}

impl GeneralRegisters {
    /// What a fault snapshot records for `r`: the saved value of a general
    /// purpose register; vector registers are not exposed by the context.
    pub open spec fn exposed(self, r: Register) -> Option<u64> {
        match r {
            Register::Rax => Some(self.rax),
            Register::Rcx => Some(self.rcx),
            Register::Rdx => Some(self.rdx),
            Register::Rbx => Some(self.rbx),
            Register::Rsp => Some(self.rsp),
            Register::Rbp => Some(self.rbp),
            Register::Rsi => Some(self.rsi),
            Register::Rdi => Some(self.rdi),
            Register::R8 => Some(self.r8),
            Register::R9 => Some(self.r9),
            Register::R10 => Some(self.r10),
            Register::R11 => Some(self.r11),
            Register::R12 => Some(self.r12),
            Register::R13 => Some(self.r13),
            Register::R14 => Some(self.r14),
            Register::R15 => Some(self.r15),
            _ => None,
        }
    }
}

/// A normalized snapshot of one fault: the faulting address, the instruction
/// pointer, and one entry per canonical register, `None` where unknown.
#[derive(Clone, Copy, Debug)]
pub struct FaultInfo {
    pub faulting_addr: u64,
    pub ip: u64,
    pub known_registers: [Option<u64>; REGISTER_COUNT],
}

impl FaultInfo {
    /// The snapshot's entry for `r`.
    pub open spec fn known(self, r: Register) -> Option<u64> {
        self.known_registers@[r.slot()]
    }

    /// Builds the snapshot of an x86-64 fault from the saved general purpose
    /// registers: every general purpose entry is filled, every vector entry is
    /// left unknown.
    pub fn decode(faulting_addr: u64, regs: &GeneralRegisters) -> (f: FaultInfo)
        ensures
            f.faulting_addr == faulting_addr,
            f.ip == regs.rip,
            forall|r: Register| #[trigger] f.known(r) == regs.exposed(r),
    {
        let mut known: [Option<u64>; REGISTER_COUNT] = [None; REGISTER_COUNT];
        known[0] = Some(regs.rax);
        known[1] = Some(regs.rcx);
        known[2] = Some(regs.rdx);
        known[3] = Some(regs.rbx);
        known[4] = Some(regs.rsp);
        known[5] = Some(regs.rbp);
        known[6] = Some(regs.rsi);
        known[7] = Some(regs.rdi);
        known[8] = Some(regs.r8);
        known[9] = Some(regs.r9);
        known[10] = Some(regs.r10);
        known[11] = Some(regs.r11);
        known[12] = Some(regs.r12);
        known[13] = Some(regs.r13);
        known[14] = Some(regs.r14);
        known[15] = Some(regs.r15);
        let f = FaultInfo { faulting_addr, ip: regs.rip, known_registers: known };
        assert forall|r: Register| #[trigger] f.known(r) == regs.exposed(r) by {
            assert(0 <= r.slot() < REGISTER_COUNT);
        }
        f
    }

    /// The snapshot's entry for `r`.
    pub fn register(&self, r: Register) -> (v: Option<u64>)
        ensures
            v == self.known(r),
    {
        let i = r.index();
        self.known_registers[i]
    }
}

} // verus!
