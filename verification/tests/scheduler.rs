use tasks::ExceptionStackFrame;
use tasks::TaskRegisters;
use tasks::TaskStateInformation;
use tasks::sched::TaskEntry;
use tasks::stack::Stack;

fn entry(name: &'static str, blocked: bool) -> TaskEntry {
    TaskEntry {
        name,
        esf: ExceptionStackFrame { instruction_pointer: 0, stack_pointer: 0, cpu_flags: 0 },
        stack: Stack { bottom: 0, top: 0 },
        registers: TaskRegisters::empty(),
        blocked,
    }
}

fn table(b0: bool, b1: bool, b2: bool) -> TaskStateInformation {
    TaskStateInformation::new(vec![entry("t0", b0), entry("t1", b1), entry("t2", b2)])
}

#[test]
fn it_works() {}

#[test]
fn new_starts_at_task_zero() {
    let s = table(false, false, false);
    assert_eq!(s.current_task, 0);
    assert_eq!(s.next_task, 0);
    assert_eq!(s.tasks.len(), 3);
}

#[test]
fn all_runnable_picks_the_task_after_current() {
    let mut s = table(false, false, false);
    assert!(s.schedule_next());
    assert_eq!(s.next_task, 1);
    assert_eq!(s.current_task, 0);

    let f0 = ExceptionStackFrame { instruction_pointer: 11, stack_pointer: 22, cpu_flags: 33 };
    let ret = *s.mangle_esf_for_next(&f0);
    assert_eq!(s.current_task, 1);
    assert_eq!(s.tasks[0].esf, f0);
    assert_eq!(ret, s.tasks[1].esf);
}

#[test]
fn blocked_task_is_skipped() {
    let mut s = table(false, true, false);
    assert!(s.schedule_next());
    assert_eq!(s.next_task, 2);
}

#[test]
fn all_others_blocked_reports_no_switch() {
    let mut s = table(false, true, true);
    assert!(!s.schedule_next());
    assert_eq!(s.next_task, 0);
    assert_eq!(s.current_task, 0);
}

#[test]
fn everything_blocked_keeps_blocked_current_selected() {
    let mut s = table(true, true, true);
    assert!(!s.schedule_next());
    assert_eq!(s.next_task, 0);
    assert_eq!(s.current_task, 0);
}

#[test]
fn selection_wraps_around_the_table() {
    let mut s = table(false, false, false);
    s.current_task = 2;
    assert!(s.schedule_next());
    assert_eq!(s.next_task, 0);
}

#[test]
fn switch_transfers_only_the_frame() {
    let mut s = table(false, false, false);
    s.tasks[0].registers.rax = 7;
    s.tasks[0].blocked = false;
    s.schedule_next();
    let f0 = ExceptionStackFrame { instruction_pointer: 1, stack_pointer: 2, cpu_flags: 3 };
    s.mangle_esf_for_next(&f0);
    assert_eq!(s.tasks[0].registers.rax, 7);
    assert_eq!(s.tasks[0].name, "t0");
    assert!(!s.tasks[0].blocked);
    assert_eq!(s.tasks[0].esf, f0);
}

#[test]
fn saved_frame_round_trips_exactly() {
    let mut s = table(false, false, false);
    let f0 = ExceptionStackFrame {
        instruction_pointer: 0x1234_5678,
        stack_pointer: 0x9abc_def0,
        cpu_flags: 0x202,
    };
    let f1 = ExceptionStackFrame { instruction_pointer: 2, stack_pointer: 2, cpu_flags: 2 };
    let f2 = ExceptionStackFrame { instruction_pointer: 3, stack_pointer: 3, cpu_flags: 3 };

    assert!(s.schedule_next());
    s.mangle_esf_for_next(&f0);
    assert_eq!(s.current_task, 1);

    assert!(s.schedule_next());
    s.mangle_esf_for_next(&f1);
    assert_eq!(s.current_task, 2);

    assert!(s.schedule_next());
    let back = *s.mangle_esf_for_next(&f2);
    assert_eq!(s.current_task, 0);
    assert_eq!(back, f0);
}

#[test]
fn second_selection_overwrites_the_first() {
    let mut s = table(false, false, false);
    assert!(s.schedule_next());
    assert_eq!(s.next_task, 1);
    s.tasks[1].blocked = true;
    assert!(s.schedule_next());
    assert_eq!(s.next_task, 2);
}

#[test]
fn current_task_accessors_reach_the_live_entry() {
    let mut s = table(false, false, false);
    assert_eq!(s.get_current_task().name, "t0");
    s.get_current_task_mut().blocked = true;
    assert!(s.tasks[0].blocked);
    s.current_task = 2;
    assert_eq!(s.get_current_task().name, "t2");
}
