use vstd::prelude::*;

verus! {

/// How an address in a stack-walk record is to be interpreted.
#[derive(Clone, Copy, Debug, PartialEq, Eq, Structural)]
pub enum AddrMode {
    Mode1616,
    Mode1632,
    Real,
    Flat,
}

/// One address slot of a stack-walk record: offset, segment and mode.
#[derive(Clone, Copy, Debug, PartialEq, Eq, Structural)]
pub struct Address64 {
    pub offset: u64,
    pub segment: u16,
    pub mode: AddrMode,
}

impl Address64 {
    /// An all-zero address slot.
    pub fn zeroed() -> (r: Address64)
        ensures
            r.offset == 0,
            r.segment == 0,
            r.mode == AddrMode::Mode1616,
    {
        Address64 { offset: 0, segment: 0, mode: AddrMode::Mode1616 }
    }

    /// A flat (virtual) address slot at `offset`.
    pub fn flat(offset: u64) -> (r: Address64)
        ensures
            r.offset == offset,
            r.segment == 0,
            r.mode == AddrMode::Flat,
    {
        Address64 { offset, segment: 0, mode: AddrMode::Flat }
    }
}

/// Kernel-mode walking help carried along by the walker between steps.
#[derive(Clone, Copy, Debug)]
pub struct KdHelp64 {
    pub thread: u64,
    pub th_callback_stack: u32,
    pub th_callback_bstore: u32,
    pub next_callback: u32,
    pub frame_pointer: u32,
    pub ki_call_user_mode: u64,
    pub ke_user_callback_dispatcher: u64,
    pub system_range_start: u64,
    pub ki_user_exception_dispatcher: u64,
    pub stack_base: u64,
    pub stack_limit: u64,
    pub build_version: u32,
    pub retpoline_stub_function_table_size: u32,
    pub retpoline_stub_function_table: u64,
    pub retpoline_stub_offset: u32,
    pub retpoline_stub_size: u32,
    pub reserved0: [u64; 2],
}

impl KdHelp64 {
    pub fn zeroed() -> (r: KdHelp64) {
        KdHelp64 {
            thread: 0,
            th_callback_stack: 0,
            th_callback_bstore: 0,
            next_callback: 0,
            frame_pointer: 0,
            ki_call_user_mode: 0,
            ke_user_callback_dispatcher: 0,
            system_range_start: 0,
            ki_user_exception_dispatcher: 0,
            stack_base: 0,
            stack_limit: 0,
            build_version: 0,
            retpoline_stub_function_table_size: 0,
            retpoline_stub_function_table: 0,
            retpoline_stub_offset: 0,
            retpoline_stub_size: 0,
            reserved0: [0, 0],
        }
    }
}

/// The legacy walk record: no inline-frame support.
#[derive(Clone, Copy, Debug)]
pub struct StackFrame64 {
    pub addr_pc: Address64,
    pub addr_return: Address64,
    pub addr_frame: Address64,
    pub addr_stack: Address64,
    pub addr_bstore: Address64,
    pub func_table_entry: u64,
    pub params: [u64; 4],
    pub far: bool,
    pub virtual_frame: bool,
    pub reserved: [u64; 3],
    pub kd_help: KdHelp64,
}

/// The modern walk record: the legacy fields, its own size, and the context
/// of the inline frame that the walker stands in.
#[derive(Clone, Copy, Debug)]
pub struct StackFrameEx {
    pub addr_pc: Address64,
    pub addr_return: Address64,
    pub addr_frame: Address64,
    pub addr_stack: Address64,
    pub addr_bstore: Address64,
    pub func_table_entry: u64,
    pub params: [u64; 4],
    pub far: bool,
    pub virtual_frame: bool,
    pub reserved: [u64; 3],
    pub kd_help: KdHelp64,
    pub stack_frame_size: u32,
    pub inline_frame_context: u32,
}

/// Size in bytes of the operating system's modern walk record, which the
/// walker expects to find in its size field.
pub const STACK_FRAME_EX_SIZE: u32 = 272;

impl StackFrame64 {
    pub fn zeroed() -> (r: StackFrame64)
        ensures
            r.addr_pc.offset == 0,
            r.addr_frame.offset == 0,
            r.addr_stack.offset == 0,
    {
        StackFrame64 {
            addr_pc: Address64::zeroed(),
            addr_return: Address64::zeroed(),
            addr_frame: Address64::zeroed(),
            addr_stack: Address64::zeroed(),
            addr_bstore: Address64::zeroed(),
            func_table_entry: 0,
            params: [0, 0, 0, 0],
            far: false,
            virtual_frame: false,
            reserved: [0, 0, 0],
            kd_help: KdHelp64::zeroed(),
        }
    }
}

impl StackFrameEx {
    /// A zeroed modern record whose size field is set, as the walker requires.
    pub fn zeroed() -> (r: StackFrameEx)
        ensures
            r.addr_pc.offset == 0,
            r.addr_frame.offset == 0,
            r.addr_stack.offset == 0,
            r.stack_frame_size == STACK_FRAME_EX_SIZE,
            r.inline_frame_context == 0,
    {
        StackFrameEx {
            addr_pc: Address64::zeroed(),
            addr_return: Address64::zeroed(),
            addr_frame: Address64::zeroed(),
            addr_stack: Address64::zeroed(),
            addr_bstore: Address64::zeroed(),
            func_table_entry: 0,
            params: [0, 0, 0, 0],
            far: false,
            virtual_frame: false,
            reserved: [0, 0, 0],
            kd_help: KdHelp64::zeroed(),
            stack_frame_size: STACK_FRAME_EX_SIZE,
            inline_frame_context: 0,
        }
    }
}

/// The record a walk runs on: modern or legacy, chosen once per trace.
#[derive(Clone, Copy, Debug)]
pub enum StackFrame {
    New(StackFrameEx),
    Old(StackFrame64),
}

impl StackFrame {
    pub open spec fn is_modern(self) -> bool {
        self is New
    }

    pub open spec fn pc(self) -> Address64 {
        match self {
            StackFrame::New(f) => f.addr_pc,
            StackFrame::Old(f) => f.addr_pc,
        }
    }

    pub open spec fn frame_addr(self) -> Address64 {
        match self {
            StackFrame::New(f) => f.addr_frame,
            StackFrame::Old(f) => f.addr_frame,
        }
    }

    pub open spec fn stack(self) -> Address64 {
        match self {
            StackFrame::New(f) => f.addr_stack,
            StackFrame::Old(f) => f.addr_stack,
        }
    }

    /// This record with its program-counter slot replaced by `a`.
    pub open spec fn with_pc(self, a: Address64) -> StackFrame {
        match self {
            StackFrame::New(f) => StackFrame::New(StackFrameEx { addr_pc: a, ..f }),
            StackFrame::Old(f) => StackFrame::Old(StackFrame64 { addr_pc: a, ..f }),
        }
    }

    /// This record with its frame-pointer slot replaced by `a`.
    pub open spec fn with_frame_addr(self, a: Address64) -> StackFrame {
        match self {
            StackFrame::New(f) => StackFrame::New(StackFrameEx { addr_frame: a, ..f }),
            StackFrame::Old(f) => StackFrame::Old(StackFrame64 { addr_frame: a, ..f }),
        }
    }

    /// This record with its stack-pointer slot replaced by `a`.
    pub open spec fn with_stack(self, a: Address64) -> StackFrame {
        match self {
            StackFrame::New(f) => StackFrame::New(StackFrameEx { addr_stack: a, ..f }),
            StackFrame::Old(f) => StackFrame::Old(StackFrame64 { addr_stack: a, ..f }),
        }
    }

    /// Whether `self` and `other` are the same kind of record.
    pub open spec fn same_kind(self, other: StackFrame) -> bool {
        self.is_modern() == other.is_modern()
    }

    /// A zeroed record of the modern kind when `modern`, else of the legacy kind.
    pub fn zeroed(modern: bool) -> (r: StackFrame)
        ensures
            r.is_modern() == modern,
            r.pc().offset == 0,
            r.stack().offset == 0,
            r.frame_addr().offset == 0,
            r matches StackFrame::New(f) ==> f.stack_frame_size == STACK_FRAME_EX_SIZE,
    {
        if modern {
            StackFrame::New(StackFrameEx::zeroed())
        } else {
            StackFrame::Old(StackFrame64::zeroed())
        }
    }

    /// Whether this record is of the modern kind.
    pub fn is_new(&self) -> (r: bool)
        ensures
            r == self.is_modern(),
    {
        match self {
            StackFrame::New(_) => true,
            StackFrame::Old(_) => false,
        }
    }
}

/// One level of a walk: the walker's record and the base address of the
/// module that holds its program counter.
///
/// A walk reuses one `Frame` for every level; a callback that is handed one
/// sees it only for the length of its own call.
#[derive(Clone, Copy, Debug)]
pub struct Frame {
    pub stack_frame: StackFrame,
    pub base_address: u64,
}

impl Frame {
    pub open spec fn record(self) -> StackFrame {
        self.stack_frame
    }

    pub open spec fn module_base(self) -> u64 {
        self.base_address
    }

    /// A frame around a zeroed record of the chosen kind, with no module base yet.
    pub fn zeroed(modern: bool) -> (r: Frame)
        ensures
            r.record().is_modern() == modern,
            r.record().pc().offset == 0,
            r.record().stack().offset == 0,
            r.record().frame_addr().offset == 0,
            r.record() matches StackFrame::New(f) ==> f.stack_frame_size == STACK_FRAME_EX_SIZE,
            r.module_base() == 0,
    {
        Frame { stack_frame: StackFrame::zeroed(modern), base_address: 0 }
    }

    /// The walker's record at this level.
    pub fn stack_frame(&self) -> (r: StackFrame)
        ensures
            r == self.record(),
    {
        self.stack_frame
    }

    /// The instruction pointer of this level.
    pub fn ip(&self) -> (r: u64)
        ensures
            r == self.record().pc().offset,
    {
        self.addr_pc().offset
    }

    /// The stack pointer of this level.
    pub fn sp(&self) -> (r: u64)
        ensures
            r == self.record().stack().offset,
    {
        self.addr_stack().offset
    }

    /// The address to look symbols up by: the instruction pointer.
    pub fn symbol_address(&self) -> (r: u64)
        ensures
            r == self.record().pc().offset,
    {
        self.ip()
    }

    /// The base address of the module that holds the instruction pointer.
    pub fn module_base_address(&self) -> (r: Option<u64>)
        ensures
            r == Some(self.module_base()),
    {
        Some(self.base_address)
    }

    fn addr_pc(&self) -> (r: &Address64)
        ensures
            *r == self.record().pc(),
    {
        match &self.stack_frame {
            StackFrame::New(new) => &new.addr_pc,
            StackFrame::Old(old) => &old.addr_pc,
        }
    }

    fn addr_stack(&self) -> (r: &Address64)
        ensures
            *r == self.record().stack(),
    {
        match &self.stack_frame {
            StackFrame::New(new) => &new.addr_stack,
            StackFrame::Old(old) => &old.addr_stack,
        }
    }

    pub(crate) fn addr_pc_mut(&mut self) -> (r: &mut Address64)
        ensures
            *r == old(self).record().pc(),
            final(self).record() == old(self).record().with_pc(*final(r)),
            final(self).module_base() == old(self).module_base(),
    {
        match &mut self.stack_frame {
            StackFrame::New(new) => &mut new.addr_pc,
            StackFrame::Old(old) => &mut old.addr_pc,
        }
    }

    pub(crate) fn addr_frame_mut(&mut self) -> (r: &mut Address64)
        ensures
            *r == old(self).record().frame_addr(),
            final(self).record() == old(self).record().with_frame_addr(*final(r)),
            final(self).module_base() == old(self).module_base(),
    {
        match &mut self.stack_frame {
            StackFrame::New(new) => &mut new.addr_frame,
            StackFrame::Old(old) => &mut old.addr_frame,
        }
    }

    pub(crate) fn addr_stack_mut(&mut self) -> (r: &mut Address64)
        ensures
            *r == old(self).record().stack(),
            final(self).record() == old(self).record().with_stack(*final(r)),
            final(self).module_base() == old(self).module_base(),
    {
        match &mut self.stack_frame {
            StackFrame::New(new) => &mut new.addr_stack,
            StackFrame::Old(old) => &mut old.addr_stack,
        }
    }
}


} // verus!
