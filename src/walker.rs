use vstd::prelude::*;

use crate::context::{init_frame, Architecture, CapturedContext, TableLookup};
use crate::frame::{Address64, AddrMode, Frame, StackFrame, STACK_FRAME_EX_SIZE};

verus! {

/// The pseudo handle by which a thread names itself.
pub const CURRENT_THREAD_PSEUDO_HANDLE: usize = usize::MAX - 1;

/// Whether a thread handle stands for the calling thread: its pseudo handle,
/// or a null handle, which is read the same way.
pub open spec fn is_calling_thread(thread: usize) -> bool {
    thread == 0 || thread == CURRENT_THREAD_PSEUDO_HANDLE
}

/// Decides whether a trace of `thread` captures the calling thread in place
/// rather than suspending another thread.
pub fn targets_calling_thread(thread: usize) -> (r: bool)
    ensures
        r == is_calling_thread(thread),
{
    thread == 0 || thread == CURRENT_THREAD_PSEUDO_HANDLE
}

/// Why a trace ended. Only `WalkExhausted` and `StoppedByCallback` are
/// ordinary ends; the others leave the trace empty. None is reported to the
/// callback.
#[derive(Clone, Copy, Debug, PartialEq, Eq, Structural)]
pub enum TraceEnd {
    /// The symbol engine could not be initialised.
    EngineUnavailable,
    /// The target thread could not be suspended.
    SuspendFailed,
    /// The suspended thread's context could not be read.
    ContextReadFailed,
    /// The walker reported that there are no more frames.
    WalkExhausted,
    /// The callback asked to stop.
    StoppedByCallback,
}

/// Where a trace stands: which outcome it waits for, or why it ended.
#[derive(Clone, Copy, Debug, PartialEq, Eq, Structural)]
pub enum Phase {
    /// Waiting for the symbol engine.
    AwaitEngine,
    /// Waiting for the calling thread's context.
    AwaitCapture,
    /// Waiting for the target thread to be suspended.
    AwaitSuspend,
    /// Waiting for the suspended thread's context.
    AwaitContext,
    /// Waiting for the walker to advance one level.
    AwaitStep,
    /// Waiting for the module base of the new level.
    AwaitModuleBase,
    /// Waiting for the callback's answer on the new level.
    AwaitCallback,
    /// The trace is over.
    Finished(TraceEnd),
}

/// What the operating system, the symbol engine or the callback reports back.
#[derive(Clone, Copy, Debug)]
pub enum Event {
    /// The symbol engine is ready; `modern` when it offers the walker that
    /// understands inline frames.
    EngineReady { modern: bool },
    EngineUnavailable,
    Suspended,
    SuspendFailed,
    ContextCaptured(CapturedContext),
    ContextReadFailed,
    /// The walker advanced one level and left this record.
    Stepped(StackFrame),
    /// The walker found no further level, or failed.
    Exhausted,
    ModuleBase(u64),
    /// The callback's answer: `true` to go on.
    CallbackReturned(bool),
}

/// What the driver of a trace is to do next.
#[derive(Clone, Copy, Debug)]
pub enum Action {
    /// Initialise (or reuse) the process-wide symbol engine.
    InitEngine,
    /// Capture the calling thread's context in place.
    CaptureCurrent,
    /// Suspend the target thread.
    Suspend,
    /// Read the suspended thread's context.
    ReadContext,
    /// Advance the walker one level from this record, with the walker of the
    /// record's kind.
    Walk { machine: u16, lookup: TableLookup, frame: StackFrame },
    /// Look up the base of the module that holds `pc`.
    LookupModuleBase { lookup: TableLookup, pc: u64 },
    /// Hand this frame to the callback.
    Deliver(Frame),
    /// Stop; resume the target thread first when `resume_thread`.
    Done { resume_thread: bool, end: TraceEnd },
}

/// The decisions of one trace, from choosing a walk strategy to resuming a
/// suspended thread. A driver performs each `Action` and reports its outcome
/// as an `Event`.
#[derive(Clone, Copy, Debug)]
pub struct Tracer {
    pub thread: usize,
    pub phase: Phase,
    pub frame: Frame,
    pub modern: bool,
    pub machine: u16,
    pub lookup: TableLookup,
    pub must_resume: bool,
}

/// The lookup source for a context's architecture.
pub open spec fn lookup_for(arch: Architecture) -> TableLookup {
    if arch.is_64_bit() {
        TableLookup::RuntimeFunctionTable
    } else {
        TableLookup::SymbolEngine
    }
}

/// `rec` seeded from `ctx`: flat program-counter, stack-pointer and
/// frame-pointer slots holding the context's registers.
pub open spec fn seeded(rec: StackFrame, ctx: CapturedContext) -> StackFrame {
    rec.with_pc(Address64 { offset: ctx.program_counter(), segment: rec.pc().segment, mode: AddrMode::Flat })
        .with_stack(Address64 { offset: ctx.stack_pointer(), segment: rec.stack().segment, mode: AddrMode::Flat })
        .with_frame_addr(Address64 { offset: ctx.frame_pointer(), segment: rec.frame_addr().segment, mode: AddrMode::Flat })
}

/// A frame as a fresh walk of the chosen kind starts from.
pub open spec fn is_fresh_frame(f: Frame, modern: bool) -> bool {
    &&& f.record().is_modern() == modern
    &&& f.record().pc().offset == 0
    &&& f.record().stack().offset == 0
    &&& f.record().frame_addr().offset == 0
    &&& (f.record() matches StackFrame::New(x) ==> x.stack_frame_size == STACK_FRAME_EX_SIZE)
    &&& f.module_base() == 0
}

/// The action that asks for the next level from `t`'s frame.
pub open spec fn walk_action(t: Tracer) -> Action {
    Action::Walk { machine: t.machine, lookup: t.lookup, frame: t.frame.record() }
}

impl Tracer {
    /// A tracer of `thread` before anything was done.
    pub open spec fn is_start(self, thread: usize) -> bool {
        &&& self.thread == thread
        &&& self.phase == Phase::AwaitEngine
        &&& !self.must_resume
    }

    /// Whether `e` answers the action this tracer last asked for. A record
    /// from the walker must be of the kind the trace walks with.
    pub open spec fn accepts(self, e: Event) -> bool {
        match self.phase {
            Phase::AwaitEngine => e is EngineReady || e is EngineUnavailable,
            Phase::AwaitCapture => e is ContextCaptured,
            Phase::AwaitSuspend => e is Suspended || e is SuspendFailed,
            Phase::AwaitContext => e is ContextCaptured || e is ContextReadFailed,
            Phase::AwaitStep => (e matches Event::Stepped(sf) && sf.is_modern() == self.modern)
                || e is Exhausted,
            Phase::AwaitModuleBase => e is ModuleBase,
            Phase::AwaitCallback => e is CallbackReturned,
            Phase::Finished(_) => false,
        }
    }

    /// `t2` and `a` end the trace from `self` for `end`.
    pub open spec fn finishes(self, end: TraceEnd, t2: Tracer, a: Action) -> bool {
        &&& t2 == Tracer { phase: Phase::Finished(end), ..self }
        &&& a == Action::Done { resume_thread: self.must_resume, end }
    }

    /// The tracer moves from `self` to `t2` on `e` and asks for `a`.
    pub open spec fn steps_to(self, e: Event, t2: Tracer, a: Action) -> bool {
        match e {
            Event::EngineReady { modern } => {
                &&& is_fresh_frame(t2.frame, modern)
                &&& t2 == Tracer {
                    phase: if is_calling_thread(self.thread) {
                        Phase::AwaitCapture
                    } else {
                        Phase::AwaitSuspend
                    },
                    frame: t2.frame,
                    modern,
                    ..self
                }
                &&& a == if is_calling_thread(self.thread) {
                    Action::CaptureCurrent
                } else {
                    Action::Suspend
                }
            },
            Event::EngineUnavailable => self.finishes(TraceEnd::EngineUnavailable, t2, a),
            Event::Suspended => {
                &&& t2 == Tracer { phase: Phase::AwaitContext, must_resume: true, ..self }
                &&& a == Action::ReadContext
            },
            Event::SuspendFailed => self.finishes(TraceEnd::SuspendFailed, t2, a),
            Event::ContextCaptured(ctx) => {
                &&& t2 == Tracer {
                    phase: Phase::AwaitStep,
                    frame: Frame { stack_frame: seeded(self.frame.record(), ctx), ..self.frame },
                    machine: ctx.arch().machine_spec(),
                    lookup: lookup_for(ctx.arch()),
                    ..self
                }
                &&& a == walk_action(t2)
            },
            Event::ContextReadFailed => self.finishes(TraceEnd::ContextReadFailed, t2, a),
            Event::Stepped(sf) => {
                &&& t2 == Tracer {
                    phase: Phase::AwaitModuleBase,
                    frame: Frame { stack_frame: sf, ..self.frame },
                    ..self
                }
                &&& a == Action::LookupModuleBase { lookup: self.lookup, pc: sf.pc().offset }
            },
            Event::Exhausted => self.finishes(TraceEnd::WalkExhausted, t2, a),
            Event::ModuleBase(base) => {
                &&& t2 == Tracer {
                    phase: Phase::AwaitCallback,
                    frame: Frame { base_address: base, ..self.frame },
                    ..self
                }
                &&& a == Action::Deliver(t2.frame)
            },
            Event::CallbackReturned(go_on) => if go_on {
                &&& t2 == Tracer { phase: Phase::AwaitStep, ..self }
                &&& a == walk_action(self)
            } else {
                self.finishes(TraceEnd::StoppedByCallback, t2, a)
            },
        }
    }

    /// Starts a trace of `thread`; the first action initialises the symbol
    /// engine.
    pub fn start(thread: usize) -> (r: (Tracer, Action))
        ensures
            r.0.is_start(thread),
            r.1 == Action::InitEngine,
    {
        let t = Tracer {
            thread,
            phase: Phase::AwaitEngine,
            frame: Frame::zeroed(false),
            modern: false,
            machine: 0,
            lookup: TableLookup::SymbolEngine,
            must_resume: false,
        };
        (t, Action::InitEngine)
    }

    /// Whether `e` answers the action this tracer last asked for.
    pub fn accepts_event(&self, e: &Event) -> (r: bool)
        ensures
            r == self.accepts(*e),
    {
        match self.phase {
            Phase::AwaitEngine => matches!(e, Event::EngineReady { .. } | Event::EngineUnavailable),
            Phase::AwaitCapture => matches!(e, Event::ContextCaptured(_)),
            Phase::AwaitSuspend => matches!(e, Event::Suspended | Event::SuspendFailed),
            Phase::AwaitContext => matches!(e, Event::ContextCaptured(_) | Event::ContextReadFailed),
            Phase::AwaitStep => match e {
                Event::Stepped(sf) => sf.is_new() == self.modern,
                Event::Exhausted => true,
                _ => false,
            },
            Phase::AwaitModuleBase => matches!(e, Event::ModuleBase(_)),
            Phase::AwaitCallback => matches!(e, Event::CallbackReturned(_)),
            Phase::Finished(_) => false,
        }
    }

    fn finish(&mut self, end: TraceEnd) -> (a: Action)
        ensures
            old(self).finishes(end, *final(self), a),
    {
        self.phase = Phase::Finished(end);
        Action::Done { resume_thread: self.must_resume, end }
    }

    /// Takes in the outcome of the last action and decides the next one.
    pub fn step(&mut self, e: Event) -> (a: Action)
        requires
            old(self).accepts(e),
        ensures
            old(self).steps_to(e, *final(self), a),
    {
        match e {
            Event::EngineReady { modern } => {
                self.frame = Frame::zeroed(modern);
                self.modern = modern;
                if targets_calling_thread(self.thread) {
                    self.phase = Phase::AwaitCapture;
                    Action::CaptureCurrent
                } else {
                    self.phase = Phase::AwaitSuspend;
                    Action::Suspend
                }
            },
            Event::EngineUnavailable => self.finish(TraceEnd::EngineUnavailable),
            Event::Suspended => {
                self.must_resume = true;
                self.phase = Phase::AwaitContext;
                Action::ReadContext
            },
            Event::SuspendFailed => self.finish(TraceEnd::SuspendFailed),
            Event::ContextCaptured(ctx) => {
                self.machine = init_frame(&mut self.frame, &ctx);
                self.lookup = ctx.architecture().table_lookup();
                self.phase = Phase::AwaitStep;
                Action::Walk { machine: self.machine, lookup: self.lookup, frame: self.frame.stack_frame }
            },
            Event::ContextReadFailed => self.finish(TraceEnd::ContextReadFailed),
            Event::Stepped(sf) => {
                self.frame.stack_frame = sf;
                self.phase = Phase::AwaitModuleBase;
                Action::LookupModuleBase { lookup: self.lookup, pc: self.frame.ip() }
            },
            Event::Exhausted => self.finish(TraceEnd::WalkExhausted),
            Event::ModuleBase(base) => {
                self.frame.base_address = base;
                self.phase = Phase::AwaitCallback;
                Action::Deliver(self.frame)
            },
            Event::CallbackReturned(go_on) => {
                if go_on {
                    self.phase = Phase::AwaitStep;
                    Action::Walk { machine: self.machine, lookup: self.lookup, frame: self.frame.stack_frame }
                } else {
                    self.finish(TraceEnd::StoppedByCallback)
                }
            },
        }
    }
}

} // verus!
