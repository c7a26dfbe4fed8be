use vstd::prelude::*;

use crate::frame::{Address64, AddrMode, Frame};

verus! {

/// Machine type of x86-64, as the walker expects it.
pub const IMAGE_FILE_MACHINE_AMD64: u16 = 0x8664;

/// Machine type of 32-bit x86.
pub const IMAGE_FILE_MACHINE_I386: u16 = 0x014c;

/// Machine type of ARM64.
pub const IMAGE_FILE_MACHINE_ARM64: u16 = 0xaa64;

/// Machine type of 32-bit ARM (Thumb-2).
pub const IMAGE_FILE_MACHINE_ARMNT: u16 = 0x01c4;

/// The processor architectures a register snapshot can come from.
#[derive(Clone, Copy, Debug, PartialEq, Eq, Structural)]
pub enum Architecture {
    Amd64,
    I386,
    Arm64,
    ArmNt,
}

/// Where the walker looks up unwind tables and module bases.
#[derive(Clone, Copy, Debug, PartialEq, Eq, Structural)]
pub enum TableLookup {
    /// The kernel's runtime function table, which also covers code generated
    /// at run time.
    RuntimeFunctionTable,
    /// The symbol engine's own table functions.
    SymbolEngine,
}

impl Architecture {
    pub open spec fn machine_spec(self) -> u16 {
        match self {
            Architecture::Amd64 => IMAGE_FILE_MACHINE_AMD64,
            Architecture::I386 => IMAGE_FILE_MACHINE_I386,
            Architecture::Arm64 => IMAGE_FILE_MACHINE_ARM64,
            Architecture::ArmNt => IMAGE_FILE_MACHINE_ARMNT,
        }
    }

    pub open spec fn is_64_bit(self) -> bool {
        self is Amd64 || self is Arm64
    }

    /// The machine type the walker is told for this architecture.
    pub fn machine_type(&self) -> (r: u16)
        ensures
            r == self.machine_spec(),
    {
        match self {
            Architecture::Amd64 => IMAGE_FILE_MACHINE_AMD64,
            Architecture::I386 => IMAGE_FILE_MACHINE_I386,
            Architecture::Arm64 => IMAGE_FILE_MACHINE_ARM64,
            Architecture::ArmNt => IMAGE_FILE_MACHINE_ARMNT,
        }
    }

    /// Table lookups go through the kernel on 64-bit targets and through the
    /// symbol engine elsewhere.
    pub fn table_lookup(&self) -> (r: TableLookup)
        ensures
            r == (if self.is_64_bit() {
                TableLookup::RuntimeFunctionTable
            } else {
                TableLookup::SymbolEngine
            }),
    {
        match self {
            Architecture::Amd64 | Architecture::Arm64 => TableLookup::RuntimeFunctionTable,
            Architecture::I386 | Architecture::ArmNt => TableLookup::SymbolEngine,
        }
    }
}

/// The control registers of a captured thread context that a walk is seeded
/// from, by architecture.
#[derive(Clone, Copy, Debug, PartialEq, Eq, Structural)]
#[allow(inconsistent_fields)]
pub enum CapturedContext {
    Amd64 { rip: u64, rsp: u64, rbp: u64 },
    I386 { eip: u32, esp: u32, ebp: u32 },
    Arm64 { pc: u64, sp: u64, fp: u64 },
    ArmNt { pc: u32, sp: u32, r11: u32 },
}

impl CapturedContext {
    pub open spec fn arch(self) -> Architecture {
        match self {
            CapturedContext::Amd64 { .. } => Architecture::Amd64,
            CapturedContext::I386 { .. } => Architecture::I386,
            CapturedContext::Arm64 { .. } => Architecture::Arm64,
            CapturedContext::ArmNt { .. } => Architecture::ArmNt,
        }
    }

    /// The program counter, widened to 64 bits.
    pub open spec fn program_counter(self) -> u64 {
        match self {
            CapturedContext::Amd64 { rip, .. } => rip,
            CapturedContext::I386 { eip, .. } => eip as u64,
            CapturedContext::Arm64 { pc, .. } => pc,
            CapturedContext::ArmNt { pc, .. } => pc as u64,
        }
    }

    /// The stack pointer, widened to 64 bits.
    pub open spec fn stack_pointer(self) -> u64 {
        match self {
            CapturedContext::Amd64 { rsp, .. } => rsp,
            CapturedContext::I386 { esp, .. } => esp as u64,
            CapturedContext::Arm64 { sp, .. } => sp,
            CapturedContext::ArmNt { sp, .. } => sp as u64,
        }
    }

    /// The frame pointer, widened to 64 bits.
    pub open spec fn frame_pointer(self) -> u64 {
        match self {
            CapturedContext::Amd64 { rbp, .. } => rbp,
            CapturedContext::I386 { ebp, .. } => ebp as u64,
            CapturedContext::Arm64 { fp, .. } => fp,
            CapturedContext::ArmNt { r11, .. } => r11 as u64,
        }
    }

    /// The architecture this snapshot was taken on.
    pub fn architecture(&self) -> (r: Architecture)
        ensures
            r == self.arch(),
    {
        match self {
            CapturedContext::Amd64 { .. } => Architecture::Amd64,
            CapturedContext::I386 { .. } => Architecture::I386,
            CapturedContext::Arm64 { .. } => Architecture::Arm64,
            CapturedContext::ArmNt { .. } => Architecture::ArmNt,
        }
    }

    /// The program counter, stack pointer and frame pointer, widened to 64 bits.
    pub fn control_registers(&self) -> (r: (u64, u64, u64))
        ensures
            r == (self.program_counter(), self.stack_pointer(), self.frame_pointer()),
    {
        match *self {
            CapturedContext::Amd64 { rip, rsp, rbp } => (rip, rsp, rbp),
            CapturedContext::I386 { eip, esp, ebp } => (eip as u64, esp as u64, ebp as u64),
            CapturedContext::Arm64 { pc, sp, fp } => (pc, sp, fp),
            CapturedContext::ArmNt { pc, sp, r11 } => (pc as u64, sp as u64, r11 as u64),
        }
    }
}

/// Seeds `frame` from a captured context: its program-counter, stack-pointer
/// and frame-pointer slots take the context's registers, all in flat mode,
/// and the rest of the frame is kept. Returns the machine type to walk with.
pub fn init_frame(frame: &mut Frame, ctx: &CapturedContext) -> (r: u16)
    ensures
        r == ctx.arch().machine_spec(),
        final(frame).record() == old(frame).record()
            .with_pc(Address64 { offset: ctx.program_counter(), segment: old(frame).record().pc().segment, mode: AddrMode::Flat })
            .with_stack(Address64 { offset: ctx.stack_pointer(), segment: old(frame).record().stack().segment, mode: AddrMode::Flat })
            .with_frame_addr(Address64 { offset: ctx.frame_pointer(), segment: old(frame).record().frame_addr().segment, mode: AddrMode::Flat }),
        final(frame).module_base() == old(frame).module_base(),
{
    let (pc, sp, fp) = ctx.control_registers();
    let pc_slot = frame.addr_pc_mut();
    pc_slot.offset = pc;
    pc_slot.mode = AddrMode::Flat;
    let stack_slot = frame.addr_stack_mut();
    stack_slot.offset = sp;
    stack_slot.mode = AddrMode::Flat;
    let frame_slot = frame.addr_frame_mut();
    frame_slot.offset = fp;
    frame_slot.mode = AddrMode::Flat;
    ctx.architecture().machine_type()
}

} // verus!
