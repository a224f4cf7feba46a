//! The capabilities that a platform collector offers, the collectors of the
//! platforms that report nothing yet, and the decisions that the Windows
//! collector takes on what the system reports.
use crate::telemetry::{
    AntivirusInfo, BrowserInfo, DisplayInfo, ExtensionInfo, HostsEntry, NetworkAdapterInfo,
    ProcessInfo,
};
use crate::text::{chars_of, contains_chars, contains_seq, lower_of, to_lower};
use vstd::prelude::*;

verus! {

/// Queries of the system profile. Each query may fail on its own; a failure
/// is described by a message.
pub trait SystemProfiler {
    fn list_antivirus(&self) -> Result<Vec<AntivirusInfo>, String>;

    fn list_browsers(&self) -> Result<Vec<BrowserInfo>, String>;

    fn list_extensions(&self, browser: &BrowserInfo) -> Result<Vec<ExtensionInfo>, String>;

    fn list_displays(&self) -> Result<Vec<DisplayInfo>, String>;

    fn list_network_adapters(&self) -> Result<Vec<NetworkAdapterInfo>, String>;

    fn parse_hosts_file(&self) -> Result<Vec<HostsEntry>, String>;

    fn get_active_window(&self) -> Result<String, String>;

    fn check_vm(&self) -> Result<bool, String>;
}

/// Enumeration of running processes.
pub trait ProcessScanner {
    fn scan(&self) -> Result<Vec<ProcessInfo>, String>;
}

/// Blocking of a process by its id; `true` when the request was accepted.
pub trait Blocker {
    fn block(&self, pid: u32) -> bool;
}

/// The Linux collector. It reports no telemetry yet.
pub struct LinuxProfiler;

impl SystemProfiler for LinuxProfiler {
    fn list_antivirus(&self) -> Result<Vec<AntivirusInfo>, String> {
        Ok(Vec::new())
    }

    fn list_browsers(&self) -> Result<Vec<BrowserInfo>, String> {
        Ok(Vec::new())
    }

    fn list_extensions(&self, _browser: &BrowserInfo) -> Result<Vec<ExtensionInfo>, String> {
        Ok(Vec::new())
    }

    fn list_displays(&self) -> Result<Vec<DisplayInfo>, String> {
        Ok(Vec::new())
    }

    fn list_network_adapters(&self) -> Result<Vec<NetworkAdapterInfo>, String> {
        Ok(Vec::new())
    }

    fn parse_hosts_file(&self) -> Result<Vec<HostsEntry>, String> {
        Ok(Vec::new())
    }

    fn get_active_window(&self) -> Result<String, String> {
        Ok(String::from_str("Linux Window"))
    }

    fn check_vm(&self) -> Result<bool, String> {
        Ok(false)
    }
}

/// The Linux process scanner. It reports no process yet.
pub struct LinuxScanner;

impl ProcessScanner for LinuxScanner {
    fn scan(&self) -> Result<Vec<ProcessInfo>, String> {
        Ok(Vec::new())
    }
}

/// The Linux blocker. It accepts every request.
pub struct LinuxBlocker;

impl Blocker for LinuxBlocker {
    fn block(&self, _pid: u32) -> bool {
        true
    }
}

/// The macOS collector. It reports no telemetry yet.
pub struct MacProfiler;

impl SystemProfiler for MacProfiler {
    fn list_antivirus(&self) -> Result<Vec<AntivirusInfo>, String> {
        Ok(Vec::new())
    }

    fn list_browsers(&self) -> Result<Vec<BrowserInfo>, String> {
        Ok(Vec::new())
    }

    fn list_extensions(&self, _browser: &BrowserInfo) -> Result<Vec<ExtensionInfo>, String> {
        Ok(Vec::new())
    }

    fn list_displays(&self) -> Result<Vec<DisplayInfo>, String> {
        Ok(Vec::new())
    }

    fn list_network_adapters(&self) -> Result<Vec<NetworkAdapterInfo>, String> {
        Ok(Vec::new())
    }

    fn parse_hosts_file(&self) -> Result<Vec<HostsEntry>, String> {
        Ok(Vec::new())
    }

    fn get_active_window(&self) -> Result<String, String> {
        Ok(String::from_str("Mac Window"))
    }

    fn check_vm(&self) -> Result<bool, String> {
        Ok(false)
    }
}

/// The macOS process scanner. It reports no process yet.
pub struct MacScanner;

impl ProcessScanner for MacScanner {
    fn scan(&self) -> Result<Vec<ProcessInfo>, String> {
        Ok(Vec::new())
    }
}

/// The macOS blocker. It accepts every request.
pub struct MacBlocker;

impl Blocker for MacBlocker {
    fn block(&self, _pid: u32) -> bool {
        true
    }
}

/// Bit of a security-centre product state that marks the product enabled.
pub const PRODUCT_ENABLED_BIT: u32 = 0x1000;

/// Whether a security-centre product state marks the product enabled.
pub fn antivirus_enabled(product_state: u32) -> (r: bool)
    ensures
        r == (product_state & PRODUCT_ENABLED_BIT != 0),
{
    product_state & PRODUCT_ENABLED_BIT != 0
}

/// Manufacturers and models of hypervisors.
pub open spec fn hypervisor_keywords() -> Seq<&'static str> {
    seq![
        "vmware", "virtualbox", "vbox", "qemu", "kvm", "microsoft corporation", "bochs",
        "parallels",
    ]
}

/// Position of "microsoft corporation" in the hypervisor keywords.
const MICROSOFT_KEYWORD: usize = 5;

fn hypervisor_keyword_list() -> (r: Vec<&'static str>)
    ensures
        r@ == hypervisor_keywords(),
{
    let r = vec![
        "vmware", "virtualbox", "vbox", "qemu", "kvm", "microsoft corporation", "bochs",
        "parallels",
    ];
    assert(r@ =~= hypervisor_keywords());
    r
}

/// Keyword `k` of the hypervisor list marks the system virtual: it occurs in
/// the lowered manufacturer or model, and where it names Microsoft, whose
/// machines are also physical, the model says "virtual".
pub open spec fn marks_virtual(manufacturer: Seq<char>, model: Seq<char>, k: int) -> bool {
    let kw = hypervisor_keywords()[k]@;
    &&& contains_seq(lower_of(manufacturer), kw) || contains_seq(lower_of(model), kw)
    &&& kw == "microsoft corporation"@ ==> contains_seq(lower_of(model), "virtual"@)
}

/// Whether the manufacturer and model that the system reports are those of a
/// virtual machine.
pub fn is_virtual_system(manufacturer: &str, model: &str) -> (r: bool)
    ensures
        r == exists|k: int| 0 <= k < hypervisor_keywords().len() && #[trigger] marks_virtual(
            manufacturer@,
            model@,
            k,
        ),
{
    let maker = chars_of(to_lower(manufacturer).as_str());
    let product = chars_of(to_lower(model).as_str());
    let virtual_word = chars_of("virtual");
    let kws = hypervisor_keyword_list();
    let mut k: usize = 0;
    while k < kws.len()
        invariant
            kws@ == hypervisor_keywords(),
            k <= kws@.len(),
            maker@ == lower_of(manufacturer@),
            product@ == lower_of(model@),
            virtual_word@ == "virtual"@,
            forall|j: int| 0 <= j < k ==> !#[trigger] marks_virtual(manufacturer@, model@, j),
        decreases kws@.len() - k,
    {
        let pat = chars_of(kws[k]);
        if contains_chars(&maker, &pat) || contains_chars(&product, &pat) {
            let named_microsoft = k == MICROSOFT_KEYWORD;
            proof {
                reveal_strlit("microsoft corporation");
                reveal_strlit("vmware");
                reveal_strlit("virtualbox");
                reveal_strlit("vbox");
                reveal_strlit("qemu");
                reveal_strlit("kvm");
                reveal_strlit("bochs");
                reveal_strlit("parallels");
                assert(named_microsoft == (kws@[k as int]@ == "microsoft corporation"@));
            }
            if !named_microsoft || contains_chars(&product, &virtual_word) {
                assert(marks_virtual(manufacturer@, model@, k as int));
                return true;
            }
        }
        k = k + 1;
    }
    false
}

/// Whether two strings hold the same characters.
fn same_text(a: &str, b: &str) -> (r: bool)
    ensures
        r == (a@ == b@),
{
    let x = chars_of(a);
    let y = chars_of(b);
    if x.len() != y.len() {
        return false;
    }
    let mut i: usize = 0;
    while i < x.len()
        invariant
            x@ == a@,
            y@ == b@,
            x@.len() == y@.len(),
            i <= x@.len(),
            forall|j: int| 0 <= j < i ==> x@[j] == y@[j],
        decreases x@.len() - i,
    {
        if x[i] != y[i] {
            return false;
        }
        i = i + 1;
    }
    assert(x@ =~= y@);
    true
}

/// The text of an optional string, or `fallback` where there is none.
pub open spec fn text_or(s: Option<String>, fallback: Seq<char>) -> Seq<char> {
    match s {
        Some(t) => t@,
        None => fallback,
    }
}

/// The display that a monitor device stands for: none where the device
/// reports a status other than "OK"; otherwise its name ("Unknown Display"
/// where it has none) and its device id (empty where it has none). Whether a
/// display is the primary one is not known from the device.
pub fn display_from_device(
    name: Option<String>,
    device_id: Option<String>,
    status: Option<String>,
) -> (r: Option<DisplayInfo>)
    ensures
        (status matches Some(st) && st@ != "OK"@) ==> r is None,
        !(status matches Some(st) && st@ != "OK"@) ==> (r matches Some(d) && d.name@ == text_or(
            name,
            "Unknown Display"@,
        ) && d.device_id@ == text_or(device_id, Seq::empty()) && !d.is_primary),
{
    if let Some(st) = &status {
        if !same_text(st.as_str(), "OK") {
            return None;
        }
    }
    let name = match name {
        Some(n) => n,
        None => String::from_str("Unknown Display"),
    };
    let device_id = match device_id {
        Some(d) => d,
        None => String::new(),
    };
    Some(DisplayInfo { name, device_id, is_primary: false })
}

/// Where, under the local application data directory, a browser keeps its
/// user data: Chrome's and Edge's are known, by the browser's name.
pub fn user_data_subdir(browser_name: &str) -> (r: Option<&'static str>)
    ensures
        contains_seq(lower_of(browser_name@), "chrome"@) ==> (r matches Some(d) && d@
            == "Google\\Chrome\\User Data"@),
        !contains_seq(lower_of(browser_name@), "chrome"@) && contains_seq(
            lower_of(browser_name@),
            "edge"@,
        ) ==> (r matches Some(d) && d@ == "Microsoft\\Edge\\User Data"@),
        !contains_seq(lower_of(browser_name@), "chrome"@) && !contains_seq(
            lower_of(browser_name@),
            "edge"@,
        ) ==> r is None,
{
    let lowered = chars_of(to_lower(browser_name).as_str());
    if contains_chars(&lowered, &chars_of("chrome")) {
        Some("Google\\Chrome\\User Data")
    } else if contains_chars(&lowered, &chars_of("edge")) {
        Some("Microsoft\\Edge\\User Data")
    } else {
        None
    }
}

} // verus!
