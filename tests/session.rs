use integrity_core::policy::PolicyEngine;
use integrity_core::session::{
    or_empty, react, startup_decision, startup_report, Monitor, MonitorAction, SessionEnd,
    SessionEvent, StartupDecision, StartupMode,
};
use integrity_core::telemetry::ProcessInfo;

fn process(pid: u32, name: &str) -> ProcessInfo {
    ProcessInfo { pid, name: name.to_string() }
}

#[test]
fn no_findings_launch_in_either_mode() {
    assert_eq!(startup_decision(StartupMode::Strict, &vec![]), StartupDecision::Launch);
    assert_eq!(startup_decision(StartupMode::Permissive, &vec![]), StartupDecision::Launch);
}

#[test]
fn findings_block_in_strict_mode_and_warn_in_permissive_mode() {
    let findings = vec!["Virtual Machine Detected".to_string()];
    assert_eq!(startup_decision(StartupMode::Strict, &findings), StartupDecision::Block);
    assert_eq!(
        startup_decision(StartupMode::Permissive, &findings),
        StartupDecision::LaunchWithWarning
    );
}

#[test]
fn startup_report_lists_findings_one_per_line() {
    assert_eq!(startup_report(&vec![]), None);
    let findings = vec!["a".to_string(), "b".to_string(), "c".to_string()];
    assert_eq!(startup_report(&findings), Some("a\nb\nc".to_string()));
}

#[test]
fn monitor_escalates_once_on_the_third_poll() {
    let engine = PolicyEngine::new();
    let mut monitor = Monitor::new();
    let clean = vec![process(1, "explorer.exe")];
    let dirty = vec![process(1, "explorer.exe"), process(4521, "OBS64.exe")];
    let polls = [clean.clone(), clean.clone(), dirty.clone(), dirty.clone(), dirty];
    let mut events = Vec::new();
    let mut performed = 0;
    for procs in polls.iter() {
        if !monitor.is_active() {
            break;
        }
        performed += 1;
        if let MonitorAction::Escalate(m) = monitor.poll(&engine, Some("Assessment"), Some(procs)) {
            events.push(m);
        }
    }
    assert_eq!(performed, 3);
    assert_eq!(events, vec!["Forbidden Process detected: OBS64.exe (PID: 4521)".to_string()]);
    assert!(!monitor.is_active());
    assert!(matches!(
        monitor.poll(&engine, Some("ChatGPT"), None),
        MonitorAction::Stopped
    ));
}

#[test]
fn window_check_wins_over_process_check() {
    let engine = PolicyEngine::new();
    let mut monitor = Monitor::new();
    let procs = vec![process(5, "discord.exe")];
    match monitor.poll(&engine, Some("Discord"), Some(&procs)) {
        MonitorAction::Escalate(m) => assert_eq!(m, "Forbidden Active Window detected: Discord"),
        other => panic!("unexpected {:?}", other),
    }
}

#[test]
fn process_findings_of_one_poll_are_joined_by_commas() {
    let engine = PolicyEngine::new();
    let mut monitor = Monitor::new();
    let procs = vec![process(1, "skype"), process(2, "slack")];
    match monitor.poll(&engine, None, Some(&procs)) {
        MonitorAction::Escalate(m) => assert_eq!(
            m,
            "Forbidden Process detected: skype (PID: 1), Forbidden Process detected: slack (PID: 2)"
        ),
        other => panic!("unexpected {:?}", other),
    }
}

#[test]
fn failed_collection_continues() {
    let engine = PolicyEngine::new();
    let mut monitor = Monitor::new();
    assert!(matches!(monitor.poll(&engine, None, None), MonitorAction::Continue));
    assert!(monitor.is_active());
}

#[test]
fn foreground_reacts_to_events() {
    assert!(matches!(
        react(SessionEvent::Violation("payload".to_string())),
        Some(SessionEnd::Interrupted(p)) if p == "payload"
    ));
    assert!(matches!(react(SessionEvent::CloseRequested), Some(SessionEnd::ClosedByUser)));
    assert!(react(SessionEvent::Other).is_none());
}

#[test]
fn failed_facet_counts_as_empty() {
    assert_eq!(or_empty::<u32>(Err("denied".to_string())), Vec::<u32>::new());
    assert_eq!(or_empty(Ok(vec![1, 2])), vec![1, 2]);
}
