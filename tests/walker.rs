use backtrace::context::{init_frame, Architecture, CapturedContext, TableLookup};
use backtrace::frame::{AddrMode, Address64, Frame, StackFrame, StackFrame64, StackFrameEx};
use backtrace::walker::{targets_calling_thread, Action, Event, Phase, TraceEnd, Tracer};

const OTHER_THREAD: usize = 0x1234;

fn modern_record(pc: u64, sp: u64) -> StackFrame {
    let mut r = StackFrameEx::zeroed();
    r.addr_pc = Address64::flat(pc);
    r.addr_stack = Address64::flat(sp);
    StackFrame::New(r)
}

fn legacy_record(pc: u64, sp: u64) -> StackFrame {
    let mut r = StackFrame64::zeroed();
    r.addr_pc = Address64::flat(pc);
    r.addr_stack = Address64::flat(sp);
    StackFrame::Old(r)
}

/// Feeds `events` to a fresh tracer of `thread`, checking that each is
/// accepted, and returns every action asked for, the first one included.
fn run(thread: usize, events: &[Event]) -> (Tracer, Vec<Action>) {
    let (mut t, first) = Tracer::start(thread);
    let mut actions = vec![first];
    for e in events {
        assert!(t.accepts_event(e));
        actions.push(t.step(*e));
    }
    (t, actions)
}

fn delivered(actions: &[Action]) -> Vec<Frame> {
    actions
        .iter()
        .filter_map(|a| match a {
            Action::Deliver(f) => Some(*f),
            _ => None,
        })
        .collect()
}

fn done(a: &Action) -> Option<(bool, TraceEnd)> {
    match a {
        Action::Done { resume_thread, end } => Some((*resume_thread, *end)),
        _ => None,
    }
}

#[test]
fn engine_unavailable_yields_no_frames() {
    let (t, actions) = run(0, &[Event::EngineUnavailable]);
    assert!(matches!(actions[0], Action::InitEngine));
    assert_eq!(actions.len(), 2);
    assert_eq!(done(&actions[1]), Some((false, TraceEnd::EngineUnavailable)));
    assert!(delivered(&actions).is_empty());
    assert_eq!(t.phase, Phase::Finished(TraceEnd::EngineUnavailable));
}

#[test]
fn exited_thread_context_read_fails_with_one_resume() {
    let (_, actions) = run(
        OTHER_THREAD,
        &[Event::EngineReady { modern: true }, Event::Suspended, Event::ContextReadFailed],
    );
    assert!(matches!(actions[1], Action::Suspend));
    assert!(matches!(actions[2], Action::ReadContext));
    assert_eq!(done(&actions[3]), Some((true, TraceEnd::ContextReadFailed)));
    assert!(delivered(&actions).is_empty());
    let resumes = actions.iter().filter(|a| matches!(a, Action::Done { resume_thread: true, .. })).count();
    assert_eq!(resumes, 1);
}

#[test]
fn suspend_failure_attempts_no_resume() {
    let (_, actions) = run(OTHER_THREAD, &[Event::EngineReady { modern: false }, Event::SuspendFailed]);
    assert_eq!(done(&actions[2]), Some((false, TraceEnd::SuspendFailed)));
}

#[test]
fn current_thread_walk_delivers_innermost_first() {
    let levels: [u64; 4] = [0x4000, 0x3000, 0x2000, 0x1000];
    let mut events = vec![
        Event::EngineReady { modern: true },
        Event::ContextCaptured(CapturedContext::Amd64 { rip: 0x4000, rsp: 0x9000, rbp: 0x9100 }),
    ];
    for (i, pc) in levels.iter().enumerate() {
        events.push(Event::Stepped(modern_record(*pc, 0x9000 + 0x10 * i as u64)));
        events.push(Event::ModuleBase(0x400));
        events.push(Event::CallbackReturned(true));
    }
    events.push(Event::Exhausted);
    let (_, actions) = run(0, &events);

    assert!(matches!(actions[1], Action::CaptureCurrent));
    match actions[2] {
        Action::Walk { machine, lookup, frame } => {
            assert_eq!(machine, 0x8664);
            assert_eq!(lookup, TableLookup::RuntimeFunctionTable);
            match frame {
                StackFrame::New(f) => {
                    assert_eq!(f.addr_pc, Address64::flat(0x4000));
                    assert_eq!(f.addr_stack, Address64::flat(0x9000));
                    assert_eq!(f.addr_frame, Address64::flat(0x9100));
                    assert_eq!(f.stack_frame_size, 272);
                }
                StackFrame::Old(_) => panic!("legacy record on the modern walker"),
            }
        }
        _ => panic!("expected a walk"),
    }
    let frames = delivered(&actions);
    assert_eq!(frames.len(), 4);
    let ips: Vec<u64> = frames.iter().map(|f| f.ip()).collect();
    assert_eq!(ips, levels.to_vec());
    for f in &frames {
        assert_ne!(f.ip(), 0);
        assert_eq!(f.module_base_address(), Some(0x400));
        assert!(f.stack_frame().is_new());
    }
    assert_eq!(done(actions.last().unwrap()), Some((false, TraceEnd::WalkExhausted)));
}

#[test]
fn callback_stop_ends_walk_and_resumes() {
    let events = [
        Event::EngineReady { modern: false },
        Event::Suspended,
        Event::ContextCaptured(CapturedContext::I386 { eip: 0x401000, esp: 0x19ff00, ebp: 0x19ff40 }),
        Event::Stepped(legacy_record(0x401000, 0x19ff00)),
        Event::ModuleBase(0x400000),
        Event::CallbackReturned(false),
    ];
    let (t, actions) = run(OTHER_THREAD, &events);
    match actions[3] {
        Action::Walk { machine, lookup, frame } => {
            assert_eq!(machine, 0x014c);
            assert_eq!(lookup, TableLookup::SymbolEngine);
            assert!(!frame.is_new());
        }
        _ => panic!("expected a walk"),
    }
    match actions[4] {
        Action::LookupModuleBase { lookup, pc } => {
            assert_eq!(lookup, TableLookup::SymbolEngine);
            assert_eq!(pc, 0x401000);
        }
        _ => panic!("expected a module base lookup"),
    }
    assert_eq!(delivered(&actions).len(), 1);
    assert_eq!(done(&actions[6]), Some((true, TraceEnd::StoppedByCallback)));
    assert!(!t.accepts_event(&Event::CallbackReturned(true)));
    assert!(!t.accepts_event(&Event::Exhausted));
}

#[test]
fn record_of_other_kind_is_refused() {
    let (t, _) = run(
        0,
        &[
            Event::EngineReady { modern: false },
            Event::ContextCaptured(CapturedContext::Arm64 { pc: 1, sp: 2, fp: 3 }),
        ],
    );
    assert!(!t.accepts_event(&Event::Stepped(modern_record(8, 16))));
    assert!(t.accepts_event(&Event::Stepped(legacy_record(8, 16))));
    assert!(!t.accepts_event(&Event::ModuleBase(0)));
}

#[test]
fn calling_thread_is_pseudo_handle_or_null() {
    assert!(targets_calling_thread(0));
    assert!(targets_calling_thread(usize::MAX - 1));
    assert!(!targets_calling_thread(OTHER_THREAD));
    assert!(!targets_calling_thread(usize::MAX));
    let (_, actions) = run(usize::MAX - 1, &[Event::EngineReady { modern: true }]);
    assert!(matches!(actions[1], Action::CaptureCurrent));
}

#[test]
fn init_frame_seeds_each_architecture() {
    let cases = [
        (CapturedContext::Amd64 { rip: 0xa, rsp: 0xb, rbp: 0xc }, 0x8664u16),
        (CapturedContext::I386 { eip: 0xa, esp: 0xb, ebp: 0xc }, 0x014c),
        (CapturedContext::Arm64 { pc: 0xa, sp: 0xb, fp: 0xc }, 0xaa64),
        (CapturedContext::ArmNt { pc: 0xa, sp: 0xb, r11: 0xc }, 0x01c4),
    ];
    for (ctx, machine) in cases {
        for modern in [true, false] {
            let mut f = Frame::zeroed(modern);
            assert_eq!(init_frame(&mut f, &ctx), machine);
            assert_eq!(f.ip(), 0xa);
            assert_eq!(f.sp(), 0xb);
            assert_eq!(f.symbol_address(), 0xa);
            assert_eq!(f.stack_frame().is_new(), modern);
            let fp = match f.stack_frame() {
                StackFrame::New(r) => r.addr_frame,
                StackFrame::Old(r) => r.addr_frame,
            };
            assert_eq!(fp, Address64 { offset: 0xc, segment: 0, mode: AddrMode::Flat });
        }
        assert_eq!(ctx.architecture().machine_type(), machine);
    }
}

#[test]
fn thirty_two_bit_registers_widen_without_sign() {
    let ctx = CapturedContext::ArmNt { pc: 0xffff_fff0, sp: 0x8000_0000, r11: 7 };
    assert_eq!(ctx.control_registers(), (0xffff_fff0, 0x8000_0000, 7));
    assert_eq!(ctx.architecture().table_lookup(), TableLookup::SymbolEngine);
    assert_eq!(Architecture::Arm64.table_lookup(), TableLookup::RuntimeFunctionTable);
}

#[test]
fn zeroed_frame_has_no_module_base() {
    let f = Frame::zeroed(true);
    assert_eq!(f.ip(), 0);
    assert_eq!(f.sp(), 0);
    assert_eq!(f.module_base_address(), Some(0));
}
