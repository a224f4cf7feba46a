//! The decisions of a monitoring session: what the startup assessment leads
//! to, what each background poll leads to, and how the foreground loop reacts
//! to an event. The loop that performs the polls, the sleeps and the sending
//! lives outside the library and hands each result in here.
use crate::policy::{mentions, process_findings, window_keywords, window_message, PolicyEngine};
use crate::telemetry::ProcessInfo;
use crate::text::{join, joined};
use vstd::prelude::*;

verus! {

/// Whether findings at startup stop the session or only warn.
#[derive(Clone, Copy, Debug, PartialEq, Eq, Structural)]
pub enum StartupMode {
    /// Findings block the session.
    Strict,
    /// Findings are reported and the session proceeds with a warning.
    Permissive,
}

/// What the startup assessment leads to.
#[derive(Clone, Copy, Debug, PartialEq, Eq, Structural)]
pub enum StartupDecision {
    /// Nothing was found: the session starts.
    Launch,
    /// Findings were reported; the session starts with a visible warning.
    LaunchWithWarning,
    /// Findings were reported; the session does not start.
    Block,
}

/// Decides what the startup assessment leads to.
pub fn startup_decision(mode: StartupMode, findings: &Vec<String>) -> (r: StartupDecision)
    ensures
        findings@.len() == 0 ==> r == StartupDecision::Launch,
        findings@.len() > 0 && mode == StartupMode::Strict ==> r == StartupDecision::Block,
        findings@.len() > 0 && mode == StartupMode::Permissive ==> r
            == StartupDecision::LaunchWithWarning,
{
    if findings.len() == 0 {
        StartupDecision::Launch
    } else {
        match mode {
            StartupMode::Strict => StartupDecision::Block,
            StartupMode::Permissive => StartupDecision::LaunchWithWarning,
        }
    }
}

/// The startup report: the findings one per line, or nothing when there are
/// none.
pub fn startup_report(findings: &Vec<String>) -> (r: Option<String>)
    ensures
        findings@.len() == 0 ==> r is None,
        findings@.len() > 0 ==> (r matches Some(s) && s@ == joined(findings.deep_view(), "\n"@)),
{
    if findings.len() == 0 {
        None
    } else {
        Some(join(findings, "\n"))
    }
}

/// The view of an optional title.
pub open spec fn title_view(w: Option<&str>) -> Option<Seq<char>> {
    match w {
        Some(t) => Some(t@),
        None => None,
    }
}

/// The view of an optional process list.
pub open spec fn processes_view(p: Option<&[ProcessInfo]>) -> Option<Seq<ProcessInfo>> {
    match p {
        Some(ps) => Some(ps@),
        None => None,
    }
}

/// The report that one poll gives, if any: the window check comes first and
/// wins; otherwise the process findings, joined by commas. A facet that
/// could not be collected (`None`) gives nothing.
pub open spec fn poll_report(
    window: Option<Seq<char>>,
    processes: Option<Seq<ProcessInfo>>,
) -> Option<Seq<char>> {
    if window is Some && mentions(window->0, window_keywords()) {
        Some(window_message(window->0))
    } else if processes is Some && process_findings(processes->0).len() > 0 {
        Some(joined(process_findings(processes->0), ", "@))
    } else {
        None
    }
}

/// What a poll of the background monitor leads to.
#[derive(Debug)]
pub enum MonitorAction {
    /// Nothing found: poll again after the interval.
    Continue,
    /// A finding: seal this report, send it to the foreground loop, and
    /// poll no more.
    Escalate(String),
    /// The monitor has already escalated; it does not poll.
    Stopped,
}

/// The background monitor. It escalates at most once in its lifetime.
#[derive(Debug)]
pub struct Monitor {
    escalated: bool,
}

impl Monitor {
    pub closed spec fn has_escalated(&self) -> bool {
        self.escalated
    }

    pub fn new() -> (r: Monitor)
        ensures
            !r.has_escalated(),
    {
        Monitor { escalated: false }
    }

    /// Whether the monitor still polls.
    pub fn is_active(&self) -> (r: bool)
        ensures
            r == !self.has_escalated(),
    {
        !self.escalated
    }

    /// Takes the results of one poll: the active window title and the
    /// process list, each `None` where collecting it failed.
    pub fn poll(
        &mut self,
        engine: &PolicyEngine,
        active_window: Option<&str>,
        processes: Option<&[ProcessInfo]>,
    ) -> (r: MonitorAction)
        ensures
            old(self).has_escalated() ==> r is Stopped && final(self).has_escalated(),
            !old(self).has_escalated() ==> ({
                let report = poll_report(title_view(active_window), processes_view(processes));
                &&& (r is Continue <==> report is None)
                &&& (r is Escalate <==> report is Some)
                &&& (r matches MonitorAction::Escalate(m) ==> report == Some(m@))
                &&& final(self).has_escalated() == report is Some
            }),
    {
        if self.escalated {
            return MonitorAction::Stopped;
        }
        if let Some(title) = active_window {
            if let Some(finding) = engine.check_active_window(title) {
                self.escalated = true;
                return MonitorAction::Escalate(finding);
            }
        }
        if let Some(ps) = processes {
            let findings = engine.check_processes(ps);
            if findings.len() > 0 {
                self.escalated = true;
                return MonitorAction::Escalate(join(&findings, ", "));
            }
        }
        MonitorAction::Continue
    }
}

/// An event that reaches the foreground loop.
#[derive(Debug)]
pub enum SessionEvent {
    /// The monitor found something; the sealed report is attached.
    Violation(String),
    /// The user asked to close the session.
    CloseRequested,
    /// Anything else.
    Other,
}

/// How the foreground session ends.
#[derive(Debug)]
pub enum SessionEnd {
    /// Ended by a finding, with its sealed report.
    Interrupted(String),
    /// Closed by the user, with no further report.
    ClosedByUser,
}

/// How the foreground loop reacts to an event: `None` to keep waiting.
pub fn react(event: SessionEvent) -> (r: Option<SessionEnd>)
    ensures
        event matches SessionEvent::Violation(p) ==> (r matches Some(SessionEnd::Interrupted(q)) && q
            == p),
        event is CloseRequested ==> r matches Some(SessionEnd::ClosedByUser),
        event is Other ==> r is None,
{
    match event {
        SessionEvent::Violation(payload) => Some(SessionEnd::Interrupted(payload)),
        SessionEvent::CloseRequested => Some(SessionEnd::ClosedByUser),
        SessionEvent::Other => None,
    }
}

/// A facet whose collection failed counts as empty.
pub fn or_empty<T>(collected: Result<Vec<T>, String>) -> (r: Vec<T>)
    ensures
        collected matches Ok(v) ==> r == v,
        collected is Err ==> r@.len() == 0,
{
    match collected {
        Ok(v) => v,
        Err(_) => Vec::new(),
    }
}

} // verus!
