//! What the host info popup shows: which host, its status and flags, and a
//! line of text for each of its parts.
use crate::app::HostInfoState;
use crate::config::opt_view;
use crate::models::{is_set, Disk, Host, HostStatus, Interface, Memory, Processor};
use crate::state::App;
use crate::text_util::{decimal, decimal_text, text_eq};
use vstd::prelude::*;

verus! {

/// The host the host info popup `st` shows, as a position in the active
/// session's hosts: the first host with the popup's host name, when it
/// names one; otherwise the host at the popup's position in the host list.
pub open spec fn info_host_at(s: App, st: HostInfoState, r: Option<usize>) -> bool {
    match s.sessions.active() {
        None => r is None,
        Some(a) => match st.host_name {
            Some(n) => match r {
                Some(i) => i < a.hosts@.len() && a.hosts@[i as int].name@ == n@ && forall|j: int|
                    0 <= j < i ==> #[trigger] a.hosts@[j].name@ != n@,
                None => forall|j: int| 0 <= j < a.hosts@.len() ==> #[trigger] a.hosts@[j].name@ != n@,
            },
            None => match r {
                Some(i) => st.host_idx < s.host_list().len() && i < a.hosts@.len() && a.hosts@[i as int]
                    == s.host_list()[st.host_idx as int],
                None => st.host_idx >= s.host_list().len(),
            },
        },
    }
}

impl App {
    /// The host the host info popup `st` shows (`info_host_at`).
    pub fn info_host_index(&self, st: &HostInfoState) -> (r: Option<usize>)
        requires
            self.wf(),
        ensures
            info_host_at(*self, *st, r),
    {
        let session = match self.sessions.active_session() {
            Some(s) => s,
            None => return None,
        };
        match &st.host_name {
            Some(n) => {
                let mut i: usize = 0;
                while i < session.hosts.len()
                    invariant
                        i <= session.hosts@.len(),
                        self.sessions.active() == Some(*session),
                        st.host_name == Some(*n),
                        forall|j: int| 0 <= j < i ==> #[trigger] session.hosts@[j].name@ != n@,
                    decreases session.hosts.len() - i,
                {
                    if text_eq(session.hosts[i].name.as_str(), n.as_str()) {
                        return Some(i);
                    }
                    i = i + 1;
                }
                None
            },
            None => {
                let idx = self.filtered_host_indices();
                if st.host_idx < idx.len() {
                    Some(idx[st.host_idx])
                } else {
                    None
                }
            },
        }
    }
}

/// The word for a host status.
pub open spec fn status_word(st: HostStatus) -> Seq<char> {
    match st {
        HostStatus::Broken => "Broken"@,
        HostStatus::Retired => "Retired"@,
        HostStatus::Available => "Available"@,
        HostStatus::Scheduled => "Scheduled"@,
    }
}

/// The word for a host status.
pub fn status_label(st: HostStatus) -> (r: &'static str)
    ensures
        r@ == status_word(st),
{
    match st {
        HostStatus::Broken => "Broken",
        HostStatus::Retired => "Retired",
        HostStatus::Available => "Available",
        HostStatus::Scheduled => "Scheduled",
    }
}

/// The flags set on a host, in the order build, validated, self-schedule,
/// switch-config.
pub open spec fn flag_words(h: Host) -> Seq<Seq<char>> {
    (if is_set(h.build) {
        seq!["build"@]
    } else {
        Seq::empty()
    }) + (if is_set(h.validated) {
        seq!["validated"@]
    } else {
        Seq::empty()
    }) + (if is_set(h.can_self_schedule) {
        seq!["self-schedule"@]
    } else {
        Seq::empty()
    }) + (if is_set(h.switch_config_applied) {
        seq!["switch-config"@]
    } else {
        Seq::empty()
    })
}

/// The flags set on a host (`flag_words`).
pub fn host_flags(h: &Host) -> (r: Vec<&'static str>)
    ensures
        r@.map_values(|s: &'static str| s@) == flag_words(*h),
{
    let mut v: Vec<&'static str> = Vec::new();
    if h.build == Some(true) {
        v.push("build");
    }
    if h.validated == Some(true) {
        v.push("validated");
    }
    if h.can_self_schedule == Some(true) {
        v.push("self-schedule");
    }
    if h.switch_config_applied == Some(true) {
        v.push("switch-config");
    }
    proof {
        assert(v@.map_values(|s: &'static str| s@) =~= flag_words(*h));
    }
    v
}

/// How many parts each section of a host lists: interfaces, disks, memory
/// modules and processors.
pub fn section_counts(h: &Host) -> (r: [usize; 4])
    ensures
        r@ == seq![h.interfaces@.len() as usize, h.disks@.len() as usize, h.memory@.len() as usize, h.processors@.len() as usize],
{
    [h.interfaces.len(), h.disks.len(), h.memory.len(), h.processors.len()]
}

/// A text, or `--` when there is none.
pub open spec fn or_dash(o: Option<Seq<char>>) -> Seq<char> {
    match o {
        Some(s) => s,
        None => "--"@,
    }
}

/// A number followed by a unit, or `--` when there is none.
pub open spec fn amount(o: Option<i64>, unit: Seq<char>) -> Seq<char> {
    match o {
        Some(n) => decimal_text(n as int) + unit,
        None => "--"@,
    }
}

fn or_dash_text(o: &Option<String>) -> (r: String)
    ensures
        r@ == or_dash(opt_view(*o)),
{
    match o {
        Some(s) => s.clone(),
        None => String::from_str("--"),
    }
}

fn amount_text(o: Option<i64>, unit: &str) -> (r: String)
    ensures
        r@ == amount(o, unit@),
{
    match o {
        Some(n) => {
            let mut s = decimal(n);
            s.append(unit);
            s
        },
        None => String::from_str("--"),
    }
}

/// The two lines of an interface: its name and MAC address, then its switch
/// port, speed, vendor and whether it boots from the network.
pub open spec fn interface_text(i: Interface) -> (Seq<char>, Seq<char>) {
    (
        "      "@ + or_dash(opt_view(i.name)) + " "@ + or_dash(opt_view(i.mac_address)),
        "        sw:"@ + or_dash(opt_view(i.switch_ip)) + ":"@ + or_dash(opt_view(i.switch_port))
            + " "@ + amount(i.speed, "G"@) + "  "@ + or_dash(opt_view(i.vendor)) + " "@ + if is_set(
            i.pxe_boot,
        ) {
            "pxe"@
        } else {
            ""@
        },
    )
}

/// The two lines of an interface (`interface_text`).
pub fn interface_lines(i: &Interface) -> (r: (String, String))
    ensures
        (r.0@, r.1@) == interface_text(*i),
{
    let mut a = String::from_str("      ");
    a.append(or_dash_text(&i.name).as_str());
    a.append(" ");
    a.append(or_dash_text(&i.mac_address).as_str());
    let mut b = String::from_str("        sw:");
    b.append(or_dash_text(&i.switch_ip).as_str());
    b.append(":");
    b.append(or_dash_text(&i.switch_port).as_str());
    b.append(" ");
    b.append(amount_text(i.speed, "G").as_str());
    b.append("  ");
    b.append(or_dash_text(&i.vendor).as_str());
    b.append(" ");
    b.append(
        if i.pxe_boot == Some(true) {
            "pxe"
        } else {
            ""
        },
    );
    (a, b)
}

/// The line of a disk: its type, size and how many there are.
pub open spec fn disk_text(d: Disk) -> Seq<char> {
    "      "@ + or_dash(opt_view(d.disk_type)) + " "@ + amount(d.size_gb, "GB"@) + " "@ + match d.count {
        Some(c) => "x"@ + decimal_text(c as int),
        None => ""@,
    }
}

/// The line of a disk (`disk_text`).
pub fn disk_line(d: &Disk) -> (r: String)
    ensures
        r@ == disk_text(*d),
{
    let mut a = String::from_str("      ");
    a.append(or_dash_text(&d.disk_type).as_str());
    a.append(" ");
    a.append(amount_text(d.size_gb, "GB").as_str());
    a.append(" ");
    match d.count {
        Some(c) => {
            a.append("x");
            a.append(decimal(c).as_str());
        },
        None => {
            a.append("");
        },
    }
    a
}

/// The line of a memory module: its handle and size.
pub open spec fn memory_text(m: Memory) -> Seq<char> {
    "      "@ + or_dash(opt_view(m.handle)) + " "@ + amount(m.size_gb, "GB"@)
}

/// The line of a memory module (`memory_text`).
pub fn memory_line(m: &Memory) -> (r: String)
    ensures
        r@ == memory_text(*m),
{
    let mut a = String::from_str("      ");
    a.append(or_dash_text(&m.handle).as_str());
    a.append(" ");
    a.append(amount_text(m.size_gb, "GB").as_str());
    a
}

/// The line of a processor: its vendor, product, cores and threads.
pub open spec fn processor_text(p: Processor) -> Seq<char> {
    "      "@ + or_dash(opt_view(p.vendor)) + " "@ + or_dash(opt_view(p.product)) + " "@ + amount(
        p.cores,
        "c"@,
    ) + "/"@ + amount(p.threads, "t"@)
}

/// The line of a processor (`processor_text`).
pub fn processor_line(p: &Processor) -> (r: String)
    ensures
        r@ == processor_text(*p),
{
    let mut a = String::from_str("      ");
    a.append(or_dash_text(&p.vendor).as_str());
    a.append(" ");
    a.append(or_dash_text(&p.product).as_str());
    a.append(" ");
    a.append(amount_text(p.cores, "c").as_str());
    a.append("/");
    a.append(amount_text(p.threads, "t").as_str());
    a
}

} // verus!
