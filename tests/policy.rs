use integrity_core::policy::PolicyEngine;
use integrity_core::telemetry::{
    BrowserInfo, DisplayInfo, ExtensionInfo, HostsEntry, NetworkAdapterInfo, ProcessInfo,
};

fn process(pid: u32, name: &str) -> ProcessInfo {
    ProcessInfo { pid, name: name.to_string() }
}

fn display(name: &str) -> DisplayInfo {
    DisplayInfo { name: name.to_string(), device_id: format!("ID-{}", name), is_primary: false }
}

fn adapter(name: &str, description: &str) -> NetworkAdapterInfo {
    NetworkAdapterInfo {
        name: name.to_string(),
        description: description.to_string(),
        mac_address: "00:11:22:33:44:55".to_string(),
    }
}

fn hosts(ip: &str, domain: &str) -> HostsEntry {
    HostsEntry { ip: ip.to_string(), domain: domain.to_string() }
}

fn browser(name: &str) -> BrowserInfo {
    BrowserInfo {
        name: name.to_string(),
        version: None,
        install_path: String::new(),
        profiles: vec![],
    }
}

fn extension(name: &str, id: &str) -> ExtensionInfo {
    ExtensionInfo {
        name: name.to_string(),
        version: "1.0".to_string(),
        id: id.to_string(),
        is_enabled: true,
    }
}

struct Snapshot {
    browsers: Vec<BrowserInfo>,
    extensions: Vec<ExtensionInfo>,
    displays: Vec<DisplayInfo>,
    processes: Vec<ProcessInfo>,
    adapters: Vec<NetworkAdapterInfo>,
    hosts: Vec<HostsEntry>,
    active_window: String,
    is_vm: bool,
}

fn empty() -> Snapshot {
    Snapshot {
        browsers: vec![],
        extensions: vec![],
        displays: vec![],
        processes: vec![],
        adapters: vec![],
        hosts: vec![],
        active_window: String::new(),
        is_vm: false,
    }
}

fn run(s: &Snapshot) -> Vec<String> {
    PolicyEngine::new().evaluate(
        &s.browsers,
        &s.extensions,
        &s.displays,
        &s.processes,
        &s.adapters,
        &s.hosts,
        &s.active_window,
        s.is_vm,
    )
}

#[test]
fn three_displays_give_one_finding_with_the_count() {
    let mut s = empty();
    s.displays = vec![display("A"), display("B"), display("C")];
    let r = run(&s);
    assert_eq!(r.len(), 1);
    assert!(r[0].contains("3"));
    assert_eq!(r[0], "Multiple Displays detected: 3 monitors found");
}

#[test]
fn one_display_gives_no_finding() {
    let mut s = empty();
    s.displays = vec![display("A")];
    assert!(run(&s).is_empty());
}

#[test]
fn obs_process_is_reported_with_name_and_pid() {
    let mut s = empty();
    s.processes = vec![process(4521, "OBS64.exe")];
    let r = run(&s);
    let matching: Vec<&String> =
        r.iter().filter(|v| v.contains("OBS64.exe") && v.contains("4521")).collect();
    assert_eq!(matching.len(), 1);
    assert_eq!(r, vec!["Forbidden Process detected: OBS64.exe (PID: 4521)".to_string()]);
}

#[test]
fn chatgpt_window_is_flagged_by_the_narrow_check() {
    let engine = PolicyEngine::new();
    let r = engine.check_active_window("ChatGPT - Google Chrome");
    let v = r.expect("a finding");
    assert!(v.to_lowercase().contains("chatgpt"));
    assert_eq!(v, "Forbidden Active Window detected: ChatGPT - Google Chrome");
}

#[test]
fn clean_window_gives_no_finding() {
    let engine = PolicyEngine::new();
    assert_eq!(engine.check_active_window("Assessment - Question 4"), None);
    assert_eq!(engine.check_active_window(""), None);
}

#[test]
fn full_evaluation_reports_each_window_keyword() {
    let mut s = empty();
    s.active_window = "ChatGPT - Google Chrome".to_string();
    let r = run(&s);
    assert_eq!(r.len(), 2);
    assert!(r.iter().all(|v| v == "Forbidden Active Window detected: ChatGPT - Google Chrome"));
}

#[test]
fn empty_snapshot_gives_no_finding() {
    assert!(run(&empty()).is_empty());
}

#[test]
fn clean_snapshot_gives_no_finding() {
    let s = Snapshot {
        browsers: vec![browser("Google Chrome"), browser("Firefox")],
        extensions: vec![extension("uBlock Origin", "cjpalhdlnbpafiamejdnhcphjbkeiagm")],
        displays: vec![display("Built-in")],
        processes: vec![process(1, "explorer.exe"), process(2, "code.exe")],
        adapters: vec![adapter("Ethernet", "Intel(R) Ethernet Connection")],
        hosts: vec![hosts("127.0.0.1", "localhost")],
        active_window: "Assessment".to_string(),
        is_vm: false,
    };
    assert!(run(&s).is_empty());
}

#[test]
fn adding_a_forbidden_process_raises_the_count() {
    let mut s = empty();
    s.processes = vec![process(10, "notepad.exe")];
    s.is_vm = true;
    let before = run(&s).len();
    s.processes.push(process(11, "Wireshark.exe"));
    let after = run(&s).len();
    assert!(after > before);
    s.processes.push(process(12, "calc.exe"));
    assert_eq!(run(&s).len(), after);
}

#[test]
fn evaluating_twice_gives_the_same_findings() {
    let mut s = empty();
    s.processes = vec![process(7, "AnyDesk.exe"), process(8, "slack")];
    s.hosts = vec![hosts("0.0.0.0", "www.chegg.com")];
    s.is_vm = true;
    assert_eq!(run(&s), run(&s));
}

#[test]
fn each_matching_keyword_gives_its_own_finding() {
    let engine = PolicyEngine::new();
    let r = engine.check_processes(&[process(3, "discord-obs-plugin")]);
    assert_eq!(r.len(), 2);
    assert_eq!(r[0], "Forbidden Process detected: discord-obs-plugin (PID: 3)");
    assert_eq!(r[0], r[1]);
}

#[test]
fn process_matching_ignores_case() {
    let engine = PolicyEngine::new();
    let r = engine.check_processes(&[process(0, "WIRESHARK.EXE"), process(4294967295, "TeamViewer")]);
    assert_eq!(
        r,
        vec![
            "Forbidden Process detected: WIRESHARK.EXE (PID: 0)".to_string(),
            "Forbidden Process detected: TeamViewer (PID: 4294967295)".to_string(),
        ]
    );
}

#[test]
fn vpn_adapter_matches_name_or_description() {
    let mut s = empty();
    s.adapters = vec![adapter("Local Area Connection", "WireGuard Tunnel")];
    let r = run(&s);
    // "tun" and "wireguard"
    assert_eq!(r.len(), 2);
    assert_eq!(r[0], "Suspicious Network Adapter detected: Local Area Connection (WireGuard Tunnel)");
}

#[test]
fn hosts_entry_with_answer_site_is_reported() {
    let mut s = empty();
    s.hosts = vec![hosts("127.0.0.1", "www.CourseHero.com"), hosts("10.0.0.1", "intranet")];
    assert_eq!(run(&s), vec!["Suspicious Hosts Entry: 127.0.0.1 -> www.CourseHero.com".to_string()]);
}

#[test]
fn suspicious_browser_and_extension_are_reported() {
    let mut s = empty();
    s.browsers = vec![browser("Tor Browser")];
    s.extensions = vec![extension("Postman Interceptor", "aicmkgpgakddgnaphhhpliifpcfhicfo")];
    assert_eq!(
        run(&s),
        vec![
            "Suspicious Browser detected: Tor Browser".to_string(),
            "Suspicious Extension detected: Postman Interceptor (aicmkgpgakddgnaphhhpliifpcfhicfo)"
                .to_string(),
        ]
    );
}

#[test]
fn findings_come_in_rule_order() {
    let s = Snapshot {
        browsers: vec![browser("Comet")],
        extensions: vec![extension("VPN Proxy", "x")],
        displays: vec![display("A"), display("B")],
        processes: vec![process(99, "telegram.exe")],
        adapters: vec![adapter("hamachi", "LogMeIn")],
        hosts: vec![hosts("1.2.3.4", "brainly.com")],
        active_window: "Stack Overflow".to_string(),
        is_vm: true,
    };
    assert_eq!(
        run(&s),
        vec![
            "Virtual Machine Detected".to_string(),
            "Forbidden Process detected: telegram.exe (PID: 99)".to_string(),
            "Suspicious Network Adapter detected: hamachi (LogMeIn)".to_string(),
            "Suspicious Hosts Entry: 1.2.3.4 -> brainly.com".to_string(),
            "Forbidden Active Window detected: Stack Overflow".to_string(),
            "Suspicious Browser detected: Comet".to_string(),
            "Suspicious Extension detected: VPN Proxy (x)".to_string(),
            "Suspicious Extension detected: VPN Proxy (x)".to_string(),
            "Multiple Displays detected: 2 monitors found".to_string(),
        ]
    );
}
