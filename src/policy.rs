//! The policy engine: keyword rules over a telemetry snapshot, each match
//! giving one human-readable finding.
use crate::telemetry::{
    BrowserInfo, DisplayInfo, ExtensionInfo, HostsEntry, NetworkAdapterInfo, ProcessInfo,
};
use crate::text::{append_decimal, chars_of, contains_chars, contains_seq, decimal, lower_of, to_lower};
use vstd::prelude::*;

verus! {

// ---------------------------------------------------------------------------
// Keyword sets
// ---------------------------------------------------------------------------

/// Remote-access, capture, interception, cheat and chat tools.
pub open spec fn process_keywords() -> Seq<&'static str> {
    seq![
        "wireshark", "fiddler", "charles", "cheatengine", "obs", "xsplit",
        "teamviewer", "anydesk", "discord", "skype", "slack", "telegram",
    ]
}

/// VPN and tunnel interfaces.
pub open spec fn vpn_keywords() -> Seq<&'static str> {
    seq!["tap", "tun", "vpn", "wireguard", "hamachi", "openvpn", "zerotier"]
}

/// Domains of answer and homework services.
pub open spec fn domain_keywords() -> Seq<&'static str> {
    seq!["cheat", "brainly", "quizlet", "coursehero", "chegg", "openai"]
}

/// AI assistants, search engines, Q&A sites and chat apps.
pub open spec fn window_keywords() -> Seq<&'static str> {
    seq!["chatgpt", "discord", "search", "google", "stack overflow", "copilot"]
}

/// Privacy- and anonymity-focused browsers.
pub open spec fn browser_keywords() -> Seq<&'static str> {
    seq!["tor", "comet", "ulaa"]
}

/// API testing, reconnaissance, AI assistant and proxy tooling.
pub open spec fn extension_keywords() -> Seq<&'static str> {
    seq![
        "postman", "vulners", "shodan", "wappalyzer", "gpt", "copilot",
        "perplexity", "ai assistant", "hack", "proxy", "vpn", "requestly",
    ]
}

fn process_keyword_list() -> (r: Vec<&'static str>)
    ensures
        r@ == process_keywords(),
{
    let r = vec![
        "wireshark", "fiddler", "charles", "cheatengine", "obs", "xsplit",
        "teamviewer", "anydesk", "discord", "skype", "slack", "telegram",
    ];
    assert(r@ =~= process_keywords());
    r
}

fn vpn_keyword_list() -> (r: Vec<&'static str>)
    ensures
        r@ == vpn_keywords(),
{
    let r = vec!["tap", "tun", "vpn", "wireguard", "hamachi", "openvpn", "zerotier"];
    assert(r@ =~= vpn_keywords());
    r
}

fn domain_keyword_list() -> (r: Vec<&'static str>)
    ensures
        r@ == domain_keywords(),
{
    let r = vec!["cheat", "brainly", "quizlet", "coursehero", "chegg", "openai"];
    assert(r@ =~= domain_keywords());
    r
}

fn window_keyword_list() -> (r: Vec<&'static str>)
    ensures
        r@ == window_keywords(),
{
    let r = vec!["chatgpt", "discord", "search", "google", "stack overflow", "copilot"];
    assert(r@ =~= window_keywords());
    r
}

fn browser_keyword_list() -> (r: Vec<&'static str>)
    ensures
        r@ == browser_keywords(),
{
    let r = vec!["tor", "comet", "ulaa"];
    assert(r@ =~= browser_keywords());
    r
}

fn extension_keyword_list() -> (r: Vec<&'static str>)
    ensures
        r@ == extension_keywords(),
{
    let r = vec![
        "postman", "vulners", "shodan", "wappalyzer", "gpt", "copilot",
        "perplexity", "ai assistant", "hack", "proxy", "vpn", "requestly",
    ];
    assert(r@ =~= extension_keywords());
    r
}

// ---------------------------------------------------------------------------
// Matching
// ---------------------------------------------------------------------------

/// How many keywords of `kws` occur in `a` or in `b`.
pub open spec fn hit_count(a: Seq<char>, b: Seq<char>, kws: Seq<&'static str>) -> nat
    decreases kws.len(),
{
    if kws.len() == 0 {
        0
    } else {
        hit_count(a, b, kws.drop_last()) + if contains_seq(a, kws.last()@) || contains_seq(
            b,
            kws.last()@,
        ) {
            1nat
        } else {
            0nat
        }
    }
}

/// How many keywords of `kws` occur in `text`, ignoring case.
pub open spec fn hits(text: Seq<char>, kws: Seq<&'static str>) -> nat {
    hit_count(lower_of(text), lower_of(text), kws)
}

/// Some keyword of `kws` occurs in `text`, ignoring case.
pub open spec fn mentions(text: Seq<char>, kws: Seq<&'static str>) -> bool {
    exists|k: int| 0 <= k < kws.len() && contains_seq(lower_of(text), #[trigger] kws[k]@)
}

/// `n` copies of `msg`.
pub open spec fn repeat(msg: Seq<char>, n: nat) -> Seq<Seq<char>> {
    Seq::new(n, |i: int| msg)
}

/// The count of keywords found is positive exactly when some keyword is found.
pub proof fn lemma_hits_positive(a: Seq<char>, b: Seq<char>, kws: Seq<&'static str>)
    ensures
        (hit_count(a, b, kws) > 0) == (exists|k: int|
            0 <= k < kws.len() && (contains_seq(a, #[trigger] kws[k]@) || contains_seq(b, kws[k]@))),
    decreases kws.len(),
{
    if kws.len() > 0 {
        let init = kws.drop_last();
        lemma_hits_positive(a, b, init);
        if hit_count(a, b, init) > 0 {
            let k = choose|k: int|
                0 <= k < init.len() && (contains_seq(a, #[trigger] init[k]@) || contains_seq(b, init[k]@));
            assert(kws[k] == init[k]);
        }
        if exists|k: int| 0 <= k < kws.len() && (contains_seq(a, #[trigger] kws[k]@) || contains_seq(b, kws[k]@)) {
            let k = choose|k: int|
                0 <= k < kws.len() && (contains_seq(a, #[trigger] kws[k]@) || contains_seq(b, kws[k]@));
            if k < init.len() {
                assert(init[k] == kws[k]);
            }
        }
    }
}

fn count_hits(a: &Vec<char>, b: &Vec<char>, kws: &Vec<&'static str>) -> (r: usize)
    ensures
        r == hit_count(a@, b@, kws@),
        r <= kws@.len(),
{
    let mut r: usize = 0;
    let mut k: usize = 0;
    while k < kws.len()
        invariant
            k <= kws@.len(),
            r <= k,
            r == hit_count(a@, b@, kws@.subrange(0, k as int)),
        decreases kws@.len() - k,
    {
        let pat = chars_of(kws[k]);
        assert(kws@.subrange(0, k + 1).drop_last() =~= kws@.subrange(0, k as int));
        if contains_chars(a, &pat) || contains_chars(b, &pat) {
            r = r + 1;
        }
        k = k + 1;
    }
    assert(kws@.subrange(0, k as int) =~= kws@);
    r
}

/// How many keywords of `kws` occur in `text`, ignoring case.
fn count_text_hits(text: &str, kws: &Vec<&'static str>) -> (r: usize)
    ensures
        r == hits(text@, kws@),
{
    let lowered = chars_of(to_lower(text).as_str());
    count_hits(&lowered, &lowered, kws)
}

/// Appends `n` copies of `msg` to `out`.
fn push_copies(out: &mut Vec<String>, msg: &String, n: usize)
    ensures
        final(out).deep_view() == old(out).deep_view() + repeat(msg@, n as nat),
{
    let mut i: usize = 0;
    while i < n
        invariant
            i <= n,
            out.deep_view() == old(out).deep_view() + repeat(msg@, i as nat),
        decreases n - i,
    {
        let ghost prev = out.deep_view();
        let copy = msg.clone();
        out.push(copy);
        assert(out.deep_view() =~= prev.push(msg@));
        i = i + 1;
        assert(out.deep_view() =~= old(out).deep_view() + repeat(msg@, i as nat));
    }
}

// ---------------------------------------------------------------------------
// Findings
// ---------------------------------------------------------------------------

pub open spec fn vm_message() -> Seq<char> {
    "Virtual Machine Detected"@
}

pub open spec fn process_message(p: ProcessInfo) -> Seq<char> {
    "Forbidden Process detected: "@ + p.name@ + " (PID: "@ + decimal(p.pid as nat) + ")"@
}

pub open spec fn adapter_message(a: NetworkAdapterInfo) -> Seq<char> {
    "Suspicious Network Adapter detected: "@ + a.name@ + " ("@ + a.description@ + ")"@
}

pub open spec fn hosts_message(h: HostsEntry) -> Seq<char> {
    "Suspicious Hosts Entry: "@ + h.ip@ + " -> "@ + h.domain@
}

pub open spec fn window_message(title: Seq<char>) -> Seq<char> {
    "Forbidden Active Window detected: "@ + title
}

pub open spec fn browser_message(b: BrowserInfo) -> Seq<char> {
    "Suspicious Browser detected: "@ + b.name@
}

pub open spec fn extension_message(e: ExtensionInfo) -> Seq<char> {
    "Suspicious Extension detected: "@ + e.name@ + " ("@ + e.id@ + ")"@
}

pub open spec fn display_message(n: nat) -> Seq<char> {
    "Multiple Displays detected: "@ + decimal(n) + " monitors found"@
}

/// Keywords matched by a process name.
pub open spec fn process_hits(p: ProcessInfo) -> nat {
    hits(p.name@, process_keywords())
}

/// Keywords matched by an adapter's name or by its description.
pub open spec fn adapter_hits(a: NetworkAdapterInfo) -> nat {
    hit_count(lower_of(a.name@), lower_of(a.description@), vpn_keywords())
}

/// One finding per forbidden keyword in each process name, in list order.
pub open spec fn process_findings(ps: Seq<ProcessInfo>) -> Seq<Seq<char>>
    decreases ps.len(),
{
    if ps.len() == 0 {
        Seq::empty()
    } else {
        process_findings(ps.drop_last()) + repeat(process_message(ps.last()), process_hits(ps.last()))
    }
}

/// One finding per VPN keyword in each adapter's name or description.
pub open spec fn adapter_findings(xs: Seq<NetworkAdapterInfo>) -> Seq<Seq<char>>
    decreases xs.len(),
{
    if xs.len() == 0 {
        Seq::empty()
    } else {
        adapter_findings(xs.drop_last()) + repeat(adapter_message(xs.last()), adapter_hits(xs.last()))
    }
}

/// One finding per suspicious keyword in each hosts entry's domain.
pub open spec fn hosts_findings(xs: Seq<HostsEntry>) -> Seq<Seq<char>>
    decreases xs.len(),
{
    if xs.len() == 0 {
        Seq::empty()
    } else {
        hosts_findings(xs.drop_last()) + repeat(
            hosts_message(xs.last()),
            hits(xs.last().domain@, domain_keywords()),
        )
    }
}

/// One finding per forbidden keyword in the active window title.
pub open spec fn window_findings(title: Seq<char>) -> Seq<Seq<char>> {
    repeat(window_message(title), hits(title, window_keywords()))
}

/// One finding per suspicious keyword in each browser name.
pub open spec fn browser_findings(xs: Seq<BrowserInfo>) -> Seq<Seq<char>>
    decreases xs.len(),
{
    if xs.len() == 0 {
        Seq::empty()
    } else {
        browser_findings(xs.drop_last()) + repeat(
            browser_message(xs.last()),
            hits(xs.last().name@, browser_keywords()),
        )
    }
}

/// One finding per suspicious keyword in each extension name.
pub open spec fn extension_findings(xs: Seq<ExtensionInfo>) -> Seq<Seq<char>>
    decreases xs.len(),
{
    if xs.len() == 0 {
        Seq::empty()
    } else {
        extension_findings(xs.drop_last()) + repeat(
            extension_message(xs.last()),
            hits(xs.last().name@, extension_keywords()),
        )
    }
}

pub open spec fn vm_findings(is_vm: bool) -> Seq<Seq<char>> {
    if is_vm {
        seq![vm_message()]
    } else {
        Seq::empty()
    }
}

pub open spec fn display_findings(n: nat) -> Seq<Seq<char>> {
    if n > 1 {
        seq![display_message(n)]
    } else {
        Seq::empty()
    }
}

/// Every finding of a full snapshot, in rule order: virtual machine,
/// processes, adapters, hosts entries, active window, browsers, extensions,
/// displays.
pub open spec fn evaluation(
    browsers: Seq<BrowserInfo>,
    extensions: Seq<ExtensionInfo>,
    display_count: nat,
    processes: Seq<ProcessInfo>,
    adapters: Seq<NetworkAdapterInfo>,
    hosts: Seq<HostsEntry>,
    active_window: Seq<char>,
    is_vm: bool,
) -> Seq<Seq<char>> {
    vm_findings(is_vm) + process_findings(processes) + adapter_findings(adapters)
        + hosts_findings(hosts) + window_findings(active_window) + browser_findings(browsers)
        + extension_findings(extensions) + display_findings(display_count)
}

// ---------------------------------------------------------------------------
// Building findings
// ---------------------------------------------------------------------------

fn process_message_of(p: &ProcessInfo) -> (r: String)
    ensures
        r@ == process_message(*p),
{
    let mut s = String::from_str("Forbidden Process detected: ");
    s.append(p.name.as_str());
    s.append(" (PID: ");
    append_decimal(&mut s, p.pid as u64);
    s.append(")");
    s
}

fn adapter_message_of(a: &NetworkAdapterInfo) -> (r: String)
    ensures
        r@ == adapter_message(*a),
{
    let mut s = String::from_str("Suspicious Network Adapter detected: ");
    s.append(a.name.as_str());
    s.append(" (");
    s.append(a.description.as_str());
    s.append(")");
    s
}

fn hosts_message_of(h: &HostsEntry) -> (r: String)
    ensures
        r@ == hosts_message(*h),
{
    let mut s = String::from_str("Suspicious Hosts Entry: ");
    s.append(h.ip.as_str());
    s.append(" -> ");
    s.append(h.domain.as_str());
    s
}

fn window_message_of(title: &str) -> (r: String)
    ensures
        r@ == window_message(title@),
{
    let mut s = String::from_str("Forbidden Active Window detected: ");
    s.append(title);
    s
}

fn browser_message_of(b: &BrowserInfo) -> (r: String)
    ensures
        r@ == browser_message(*b),
{
    let mut s = String::from_str("Suspicious Browser detected: ");
    s.append(b.name.as_str());
    s
}

fn extension_message_of(e: &ExtensionInfo) -> (r: String)
    ensures
        r@ == extension_message(*e),
{
    let mut s = String::from_str("Suspicious Extension detected: ");
    s.append(e.name.as_str());
    s.append(" (");
    s.append(e.id.as_str());
    s.append(")");
    s
}

fn display_message_of(n: usize) -> (r: String)
    ensures
        r@ == display_message(n as nat),
{
    let mut s = String::from_str("Multiple Displays detected: ");
    append_decimal(&mut s, n as u64);
    s.append(" monitors found");
    s
}

fn push_process_findings(out: &mut Vec<String>, xs: &[ProcessInfo])
    ensures
        final(out).deep_view() == old(out).deep_view() + process_findings(xs@),
{
    let kws = process_keyword_list();
    let mut i: usize = 0;
    while i < xs.len()
        invariant
            i <= xs@.len(),
            kws@ == process_keywords(),
            out.deep_view() == old(out).deep_view() + process_findings(xs@.subrange(0, i as int)),
        decreases xs@.len() - i,
    {
        let x = &xs[i];
        let n = count_text_hits(x.name.as_str(), &kws);
        let msg = process_message_of(x);
        push_copies(out, &msg, n);
        assert(xs@.subrange(0, i + 1).drop_last() =~= xs@.subrange(0, i as int));
        i = i + 1;
        assert(out.deep_view() =~= old(out).deep_view() + process_findings(xs@.subrange(0, i as int)));
    }
    assert(xs@.subrange(0, i as int) =~= xs@);
}

fn push_adapter_findings(out: &mut Vec<String>, xs: &[NetworkAdapterInfo])
    ensures
        final(out).deep_view() == old(out).deep_view() + adapter_findings(xs@),
{
    let kws = vpn_keyword_list();
    let mut i: usize = 0;
    while i < xs.len()
        invariant
            i <= xs@.len(),
            kws@ == vpn_keywords(),
            out.deep_view() == old(out).deep_view() + adapter_findings(xs@.subrange(0, i as int)),
        decreases xs@.len() - i,
    {
        let x = &xs[i];
        let name = chars_of(to_lower(x.name.as_str()).as_str());
        let description = chars_of(to_lower(x.description.as_str()).as_str());
        let n = count_hits(&name, &description, &kws);
        let msg = adapter_message_of(x);
        push_copies(out, &msg, n);
        assert(xs@.subrange(0, i + 1).drop_last() =~= xs@.subrange(0, i as int));
        i = i + 1;
        assert(out.deep_view() =~= old(out).deep_view() + adapter_findings(xs@.subrange(0, i as int)));
    }
    assert(xs@.subrange(0, i as int) =~= xs@);
}

fn push_hosts_findings(out: &mut Vec<String>, xs: &[HostsEntry])
    ensures
        final(out).deep_view() == old(out).deep_view() + hosts_findings(xs@),
{
    let kws = domain_keyword_list();
    let mut i: usize = 0;
    while i < xs.len()
        invariant
            i <= xs@.len(),
            kws@ == domain_keywords(),
            out.deep_view() == old(out).deep_view() + hosts_findings(xs@.subrange(0, i as int)),
        decreases xs@.len() - i,
    {
        let x = &xs[i];
        let n = count_text_hits(x.domain.as_str(), &kws);
        let msg = hosts_message_of(x);
        push_copies(out, &msg, n);
        assert(xs@.subrange(0, i + 1).drop_last() =~= xs@.subrange(0, i as int));
        i = i + 1;
        assert(out.deep_view() =~= old(out).deep_view() + hosts_findings(xs@.subrange(0, i as int)));
    }
    assert(xs@.subrange(0, i as int) =~= xs@);
}

fn push_browser_findings(out: &mut Vec<String>, xs: &[BrowserInfo])
    ensures
        final(out).deep_view() == old(out).deep_view() + browser_findings(xs@),
{
    let kws = browser_keyword_list();
    let mut i: usize = 0;
    while i < xs.len()
        invariant
            i <= xs@.len(),
            kws@ == browser_keywords(),
            out.deep_view() == old(out).deep_view() + browser_findings(xs@.subrange(0, i as int)),
        decreases xs@.len() - i,
    {
        let x = &xs[i];
        let n = count_text_hits(x.name.as_str(), &kws);
        let msg = browser_message_of(x);
        push_copies(out, &msg, n);
        assert(xs@.subrange(0, i + 1).drop_last() =~= xs@.subrange(0, i as int));
        i = i + 1;
        assert(out.deep_view() =~= old(out).deep_view() + browser_findings(xs@.subrange(0, i as int)));
    }
    assert(xs@.subrange(0, i as int) =~= xs@);
}

fn push_extension_findings(out: &mut Vec<String>, xs: &[ExtensionInfo])
    ensures
        final(out).deep_view() == old(out).deep_view() + extension_findings(xs@),
{
    let kws = extension_keyword_list();
    let mut i: usize = 0;
    while i < xs.len()
        invariant
            i <= xs@.len(),
            kws@ == extension_keywords(),
            out.deep_view() == old(out).deep_view() + extension_findings(xs@.subrange(0, i as int)),
        decreases xs@.len() - i,
    {
        let x = &xs[i];
        let n = count_text_hits(x.name.as_str(), &kws);
        let msg = extension_message_of(x);
        push_copies(out, &msg, n);
        assert(xs@.subrange(0, i + 1).drop_last() =~= xs@.subrange(0, i as int));
        i = i + 1;
        assert(out.deep_view() =~= old(out).deep_view() + extension_findings(xs@.subrange(0, i as int)));
    }
    assert(xs@.subrange(0, i as int) =~= xs@);
}

// ---------------------------------------------------------------------------
// The engine
// ---------------------------------------------------------------------------

/// Evaluates telemetry against the rule set. It holds no state: every result
/// depends on the arguments alone.
pub struct PolicyEngine;

impl PolicyEngine {
    pub fn new() -> Self {
        PolicyEngine
    }

    /// The narrow window check: a finding when the title holds a forbidden
    /// keyword, ignoring case, and none otherwise.
    pub fn check_active_window(&self, active_window: &str) -> (r: Option<String>)
        ensures
            r is Some <==> mentions(active_window@, window_keywords()),
            r matches Some(v) ==> v@ == window_message(active_window@),
    {
        let kws = window_keyword_list();
        let n = count_text_hits(active_window, &kws);
        proof {
            lemma_hits_positive(lower_of(active_window@), lower_of(active_window@), window_keywords());
        }
        if n > 0 {
            Some(window_message_of(active_window))
        } else {
            None
        }
    }

    /// The narrow process check: one finding per forbidden keyword in each
    /// process name, in list order.
    pub fn check_processes(&self, processes: &[ProcessInfo]) -> (r: Vec<String>)
        ensures
            r.deep_view() == process_findings(processes@),
    {
        let mut out: Vec<String> = Vec::new();
        push_process_findings(&mut out, processes);
        assert(out.deep_view() =~= process_findings(processes@));
        out
    }

    /// The full evaluation: every rule over the whole snapshot, all matches
    /// kept, in rule order.
    pub fn evaluate(
        &self,
        browsers: &[BrowserInfo],
        extensions: &[ExtensionInfo],
        displays: &[DisplayInfo],
        processes: &[ProcessInfo],
        adapters: &[NetworkAdapterInfo],
        hosts: &[HostsEntry],
        active_window: &str,
        is_vm: bool,
    ) -> (r: Vec<String>)
        ensures
            r.deep_view() == evaluation(
                browsers@,
                extensions@,
                displays@.len(),
                processes@,
                adapters@,
                hosts@,
                active_window@,
                is_vm,
            ),
    {
        let mut out: Vec<String> = Vec::new();
        if is_vm {
            out.push(String::from_str("Virtual Machine Detected"));
        }
        assert(out.deep_view() =~= vm_findings(is_vm));
        push_process_findings(&mut out, processes);
        push_adapter_findings(&mut out, adapters);
        push_hosts_findings(&mut out, hosts);
        let kws = window_keyword_list();
        let n = count_text_hits(active_window, &kws);
        let msg = window_message_of(active_window);
        push_copies(&mut out, &msg, n);
        push_browser_findings(&mut out, browsers);
        push_extension_findings(&mut out, extensions);
        if displays.len() > 1 {
            let ghost before = out.deep_view();
            out.push(display_message_of(displays.len()));
            assert(out.deep_view() =~= before + display_findings(displays@.len()));
        } else {
            assert(out.deep_view() =~= out.deep_view() + display_findings(displays@.len()));
        }
        out
    }
}

// ---------------------------------------------------------------------------
// Laws
// ---------------------------------------------------------------------------

proof fn lemma_no_mention_no_hits(text: Seq<char>, kws: Seq<&'static str>)
    requires
        !mentions(text, kws),
    ensures
        hits(text, kws) == 0,
{
    lemma_hits_positive(lower_of(text), lower_of(text), kws);
}

proof fn lemma_clean_processes(xs: Seq<ProcessInfo>)
    requires
        forall|i: int| 0 <= i < xs.len() ==> !mentions(#[trigger] xs[i].name@, process_keywords()),
    ensures
        process_findings(xs) =~= Seq::<Seq<char>>::empty(),
    decreases xs.len(),
{
    if xs.len() > 0 {
        lemma_clean_processes(xs.drop_last());
        lemma_no_mention_no_hits(xs.last().name@, process_keywords());
    }
}

proof fn lemma_clean_adapters(xs: Seq<NetworkAdapterInfo>)
    requires
        forall|i: int|
            0 <= i < xs.len() ==> !mentions(#[trigger] xs[i].name@, vpn_keywords()) && !mentions(
                xs[i].description@,
                vpn_keywords(),
            ),
    ensures
        adapter_findings(xs) =~= Seq::<Seq<char>>::empty(),
    decreases xs.len(),
{
    if xs.len() > 0 {
        lemma_clean_adapters(xs.drop_last());
        let x = xs.last();
        lemma_hits_positive(lower_of(x.name@), lower_of(x.description@), vpn_keywords());
    }
}

proof fn lemma_clean_hosts(xs: Seq<HostsEntry>)
    requires
        forall|i: int| 0 <= i < xs.len() ==> !mentions(#[trigger] xs[i].domain@, domain_keywords()),
    ensures
        hosts_findings(xs) =~= Seq::<Seq<char>>::empty(),
    decreases xs.len(),
{
    if xs.len() > 0 {
        lemma_clean_hosts(xs.drop_last());
        lemma_no_mention_no_hits(xs.last().domain@, domain_keywords());
    }
}

proof fn lemma_clean_browsers(xs: Seq<BrowserInfo>)
    requires
        forall|i: int| 0 <= i < xs.len() ==> !mentions(#[trigger] xs[i].name@, browser_keywords()),
    ensures
        browser_findings(xs) =~= Seq::<Seq<char>>::empty(),
    decreases xs.len(),
{
    if xs.len() > 0 {
        lemma_clean_browsers(xs.drop_last());
        lemma_no_mention_no_hits(xs.last().name@, browser_keywords());
    }
}

proof fn lemma_clean_extensions(xs: Seq<ExtensionInfo>)
    requires
        forall|i: int| 0 <= i < xs.len() ==> !mentions(#[trigger] xs[i].name@, extension_keywords()),
    ensures
        extension_findings(xs) =~= Seq::<Seq<char>>::empty(),
    decreases xs.len(),
{
    if xs.len() > 0 {
        lemma_clean_extensions(xs.drop_last());
        lemma_no_mention_no_hits(xs.last().name@, extension_keywords());
    }
}

/// A snapshot on which no rule matches gives no finding: no forbidden keyword
/// in any process name, no VPN keyword in any adapter's name or description,
/// no suspicious keyword in any hosts domain, browser name or extension name,
/// no forbidden keyword in the active window title, no virtual machine and at
/// most one display.
pub proof fn lemma_clean_snapshot_has_no_findings(
    browsers: Seq<BrowserInfo>,
    extensions: Seq<ExtensionInfo>,
    display_count: nat,
    processes: Seq<ProcessInfo>,
    adapters: Seq<NetworkAdapterInfo>,
    hosts: Seq<HostsEntry>,
    active_window: Seq<char>,
    is_vm: bool,
)
    requires
        forall|i: int|
            0 <= i < processes.len() ==> !mentions(#[trigger] processes[i].name@, process_keywords()),
        forall|i: int|
            0 <= i < adapters.len() ==> !mentions(#[trigger] adapters[i].name@, vpn_keywords())
                && !mentions(adapters[i].description@, vpn_keywords()),
        forall|i: int| 0 <= i < hosts.len() ==> !mentions(#[trigger] hosts[i].domain@, domain_keywords()),
        !mentions(active_window, window_keywords()),
        forall|i: int|
            0 <= i < browsers.len() ==> !mentions(#[trigger] browsers[i].name@, browser_keywords()),
        forall|i: int|
            0 <= i < extensions.len() ==> !mentions(#[trigger] extensions[i].name@, extension_keywords()),
        !is_vm,
        display_count <= 1,
    ensures
        evaluation(browsers, extensions, display_count, processes, adapters, hosts, active_window, is_vm)
            == Seq::<Seq<char>>::empty(),
{
    lemma_clean_processes(processes);
    lemma_clean_adapters(adapters);
    lemma_clean_hosts(hosts);
    lemma_clean_browsers(browsers);
    lemma_clean_extensions(extensions);
    lemma_no_mention_no_hits(active_window, window_keywords());
    assert(window_findings(active_window) =~= Seq::<Seq<char>>::empty());
    assert(evaluation(browsers, extensions, display_count, processes, adapters, hosts, active_window, is_vm)
        =~= Seq::<Seq<char>>::empty());
}

/// Adding a process to a snapshot never removes a finding, and adding one
/// whose name holds a forbidden keyword adds at least one.
pub proof fn lemma_added_process_never_lowers_count(
    browsers: Seq<BrowserInfo>,
    extensions: Seq<ExtensionInfo>,
    display_count: nat,
    processes: Seq<ProcessInfo>,
    adapters: Seq<NetworkAdapterInfo>,
    hosts: Seq<HostsEntry>,
    active_window: Seq<char>,
    is_vm: bool,
    added: ProcessInfo,
)
    ensures
        evaluation(browsers, extensions, display_count, processes.push(added), adapters, hosts, active_window, is_vm).len()
            >= evaluation(browsers, extensions, display_count, processes, adapters, hosts, active_window, is_vm).len(),
        mentions(added.name@, process_keywords()) ==> evaluation(
            browsers,
            extensions,
            display_count,
            processes.push(added),
            adapters,
            hosts,
            active_window,
            is_vm,
        ).len() > evaluation(browsers, extensions, display_count, processes, adapters, hosts, active_window, is_vm).len(),
{
    assert(processes.push(added).drop_last() =~= processes);
    assert(process_findings(processes.push(added)).len() == process_findings(processes).len()
        + process_hits(added));
    lemma_hits_positive(lower_of(added.name@), lower_of(added.name@), process_keywords());
}

/// Adding an adapter, a hosts entry, a browser or an extension to a snapshot
/// never removes a finding, and adding one that matches its rule adds at
/// least one.
pub proof fn lemma_added_record_never_lowers_count(
    browsers: Seq<BrowserInfo>,
    extensions: Seq<ExtensionInfo>,
    display_count: nat,
    processes: Seq<ProcessInfo>,
    adapters: Seq<NetworkAdapterInfo>,
    hosts: Seq<HostsEntry>,
    active_window: Seq<char>,
    is_vm: bool,
    adapter: NetworkAdapterInfo,
    entry: HostsEntry,
    browser: BrowserInfo,
    extension: ExtensionInfo,
)
    ensures
        ({
            let base = evaluation(browsers, extensions, display_count, processes, adapters, hosts, active_window, is_vm).len();
            let with_adapter = evaluation(browsers, extensions, display_count, processes, adapters.push(adapter), hosts, active_window, is_vm).len();
            let with_entry = evaluation(browsers, extensions, display_count, processes, adapters, hosts.push(entry), active_window, is_vm).len();
            let with_browser = evaluation(browsers.push(browser), extensions, display_count, processes, adapters, hosts, active_window, is_vm).len();
            let with_extension = evaluation(browsers, extensions.push(extension), display_count, processes, adapters, hosts, active_window, is_vm).len();
            &&& with_adapter >= base
            &&& with_entry >= base
            &&& with_browser >= base
            &&& with_extension >= base
            &&& (mentions(adapter.name@, vpn_keywords()) || mentions(adapter.description@, vpn_keywords()))
                ==> with_adapter > base
            &&& mentions(entry.domain@, domain_keywords()) ==> with_entry > base
            &&& mentions(browser.name@, browser_keywords()) ==> with_browser > base
            &&& mentions(extension.name@, extension_keywords()) ==> with_extension > base
        }),
{
    assert(adapters.push(adapter).drop_last() =~= adapters);
    assert(hosts.push(entry).drop_last() =~= hosts);
    assert(browsers.push(browser).drop_last() =~= browsers);
    assert(extensions.push(extension).drop_last() =~= extensions);
    lemma_hits_positive(lower_of(adapter.name@), lower_of(adapter.description@), vpn_keywords());
    lemma_hits_positive(lower_of(entry.domain@), lower_of(entry.domain@), domain_keywords());
    lemma_hits_positive(lower_of(browser.name@), lower_of(browser.name@), browser_keywords());
    lemma_hits_positive(lower_of(extension.name@), lower_of(extension.name@), extension_keywords());
    if mentions(adapter.name@, vpn_keywords()) {
        let k = choose|k: int| 0 <= k < vpn_keywords().len() && contains_seq(lower_of(adapter.name@), #[trigger] vpn_keywords()[k]@);
        assert(contains_seq(lower_of(adapter.name@), vpn_keywords()[k]@) || contains_seq(lower_of(adapter.description@), vpn_keywords()[k]@));
    }
    if mentions(adapter.description@, vpn_keywords()) {
        let k = choose|k: int| 0 <= k < vpn_keywords().len() && contains_seq(lower_of(adapter.description@), #[trigger] vpn_keywords()[k]@);
        assert(contains_seq(lower_of(adapter.name@), vpn_keywords()[k]@) || contains_seq(lower_of(adapter.description@), vpn_keywords()[k]@));
    }
}

/// Evaluation is a function of the snapshot: two evaluations of one snapshot
/// give the same findings in the same order.
pub proof fn lemma_evaluate_idempotent(
    first: Seq<Seq<char>>,
    second: Seq<Seq<char>>,
    browsers: Seq<BrowserInfo>,
    extensions: Seq<ExtensionInfo>,
    display_count: nat,
    processes: Seq<ProcessInfo>,
    adapters: Seq<NetworkAdapterInfo>,
    hosts: Seq<HostsEntry>,
    active_window: Seq<char>,
    is_vm: bool,
)
    requires
        first == evaluation(browsers, extensions, display_count, processes, adapters, hosts, active_window, is_vm),
        second == evaluation(browsers, extensions, display_count, processes, adapters, hosts, active_window, is_vm),
    ensures
        first == second,
{
}

} // verus!
