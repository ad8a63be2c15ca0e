use threebody::breakpoint::{Breakpoint, BreakpointTable};
use threebody::error::DebugError;
use threebody::lines::LineAddresses;
use threebody::source::SourceIndex;
use threebody::step::{
    classify_stop, first_stop, plan_resume, rearm_breakpoint, source_step, step_over_breakpoint,
    trap_address, LiftedBreakpoint, ResumePlan, Stop, WaitReport, SIGTRAP,
};

const SHIFT: u64 = 0x555555554000;

#[test]
fn trap_address_is_one_before_the_instruction_pointer() {
    assert_eq!(trap_address(0x55555555514a), 0x555555555149);
    assert_eq!(trap_address(0), u64::MAX);
}

#[test]
fn step_over_without_breakpoint_is_not_at_breakpoint() {
    let mut table = BreakpointTable::new();
    assert_eq!(step_over_breakpoint(&mut table, 0x1149, 0xcc), Err(DebugError::NotAtBreakpoint));
    table.add_pending(0x1149);
    assert_eq!(step_over_breakpoint(&mut table, 0x1149, 0xcc), Err(DebugError::NotAtBreakpoint));
    assert_eq!(table.get(0x1149), Some(Breakpoint { saved: 0, enabled: false }));
}

#[test]
fn step_over_lifts_and_rearms_the_breakpoint() {
    let mut table = BreakpointTable::new();
    let original = 0x0000_0000_e589_4855u64;
    let patched = table.install(0x1149, original).unwrap().unwrap();
    let before = table.get(0x1149);
    let lifted = step_over_breakpoint(&mut table, 0x1149, patched).unwrap();
    assert_eq!(lifted, LiftedBreakpoint { address: 0x1149, write: original });
    assert!(!table.is_installed(0x1149));
    let write = rearm_breakpoint(&mut table, lifted, lifted.write).unwrap();
    assert_eq!(write, Some(patched));
    assert_eq!(table.get(0x1149), before);
    assert!(table.is_installed(0x1149));
}

#[test]
fn resume_from_a_breakpoint_steps_over_first() {
    let mut table = BreakpointTable::new();
    table.install(0x1149, 0x55).unwrap();
    table.add_pending(0x1160);
    assert_eq!(plan_resume(&table, 0x1149), ResumePlan::StepOverFirst { address: 0x1149 });
    assert_eq!(plan_resume(&table, 0x1160), ResumePlan::Direct);
    assert_eq!(plan_resume(&table, 0x1150), ResumePlan::Direct);
}

fn lines() -> LineAddresses {
    let mut lines = LineAddresses::new();
    lines.insert(0x1149, SourceIndex::new(b"/home/user/src".to_vec(), 0, 1));
    lines.insert(0x114d, SourceIndex::new(b"/home/user/src".to_vec(), 0, 2));
    lines.insert(0x1151, SourceIndex::new(b"/home/user/src".to_vec(), 0, 2));
    lines
}

#[test]
fn source_step_stops_at_the_next_line() {
    let lines = lines();
    let start = SourceIndex::new(b"/home/user/src".to_vec(), 0, 1);
    assert!(source_step(&lines, Some(SHIFT), Some(&start), SHIFT + 0x1149).is_none());
    assert!(source_step(&lines, Some(SHIFT), Some(&start), SHIFT + 0x114a).is_none());
    let (at, position) = source_step(&lines, Some(SHIFT), Some(&start), SHIFT + 0x114d).unwrap();
    assert_eq!(at, SHIFT + 0x114d);
    assert_eq!(position.line, 2);
    assert_eq!(position.hash_path, b"/home/user/src".to_vec());
    assert_eq!(position.index, 0);
}

#[test]
fn source_step_passes_addresses_of_the_same_line() {
    let lines = lines();
    let start = SourceIndex::new(b"/home/user/src".to_vec(), 0, 2);
    assert!(source_step(&lines, None, Some(&start), 0x1151).is_none());
    assert!(source_step(&lines, None, Some(&start), 0x1149).is_some());
}

#[test]
fn source_step_without_a_start_stops_at_any_line() {
    let lines = lines();
    assert!(source_step(&lines, None, None, 0x1149).is_some());
    assert!(source_step(&lines, None, None, 0x1148).is_none());
}

#[test]
fn a_trap_behind_our_breakpoint_is_a_breakpoint_stop() {
    let mut table = BreakpointTable::new();
    table.install(0x1149, 0x55).unwrap();
    assert_eq!(
        classify_stop(&table, Some(SHIFT), WaitReport::Stopped(SIGTRAP), SHIFT + 0x114a),
        Ok(Stop::Breakpoint { address: 0x1149, rewind_to: SHIFT + 0x1149 })
    );
}

#[test]
fn other_stops_are_signals() {
    let mut table = BreakpointTable::new();
    table.install(0x1149, 0x55).unwrap();
    table.add_pending(0x1160);
    assert_eq!(
        classify_stop(&table, Some(SHIFT), WaitReport::Stopped(SIGTRAP), SHIFT + 0x1150),
        Ok(Stop::Signal { signal: SIGTRAP, rip: SHIFT + 0x1150 })
    );
    assert_eq!(
        classify_stop(&table, Some(SHIFT), WaitReport::Stopped(SIGTRAP), SHIFT + 0x1161),
        Ok(Stop::Signal { signal: SIGTRAP, rip: SHIFT + 0x1161 })
    );
    assert_eq!(
        classify_stop(&table, Some(SHIFT), WaitReport::Stopped(11), SHIFT + 0x114a),
        Ok(Stop::Signal { signal: 11, rip: SHIFT + 0x114a })
    );
}

#[test]
fn a_tracee_that_did_not_stop_is_gone() {
    let table = BreakpointTable::new();
    for report in [WaitReport::Exited(0), WaitReport::Signaled(9), WaitReport::Other] {
        assert_eq!(classify_stop(&table, None, report, 0x1000), Err(DebugError::TraceeDied));
    }
}

#[test]
fn a_launch_needs_a_child_that_stopped() {
    assert_eq!(first_stop(Some(4242), WaitReport::Stopped(SIGTRAP)), Ok(4242));
    assert_eq!(first_stop(None, WaitReport::Other), Err(DebugError::FatalLaunchError));
    assert_eq!(first_stop(Some(4242), WaitReport::Exited(2)), Err(DebugError::FatalLaunchError));
    assert_eq!(first_stop(Some(4242), WaitReport::Signaled(9)), Err(DebugError::FatalLaunchError));
}
