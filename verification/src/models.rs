//! The records the server sends: hosts, clouds, assignments, schedules.
use crate::config::{copy_opt, opt_view};
use crate::json::{copy_json_opt, get_text, member_text};
use crate::text_util::text_eq;
use serde_json::Value;
use vstd::prelude::*;

verus! {

/// A reference to a cloud from another record.
#[derive(Debug)]
pub struct CloudRef {
    pub id: Option<i64>,
    pub name: String,
    pub last_redefined: Option<Value>,
}

impl CloudRef {
    /// A copy of this reference.
    pub fn duplicate(&self) -> (r: Self)
        ensures
            r == *self,
    {
        CloudRef {
            id: self.id,
            name: self.name.clone(),
            last_redefined: copy_json_opt(&self.last_redefined),
        }
    }
}

/// A network interface of a host.
#[derive(Debug)]
pub struct Interface {
    pub id: Option<i64>,
    pub name: Option<String>,
    pub bios_id: Option<String>,
    pub mac_address: Option<String>,
    pub switch_ip: Option<String>,
    pub switch_port: Option<String>,
    pub speed: Option<i64>,
    pub vendor: Option<String>,
    pub pxe_boot: Option<bool>,
    pub maintenance: Option<bool>,
}

/// A disk of a host.
#[derive(Debug)]
pub struct Disk {
    pub disk_id: Option<i64>,
    pub disk_type: Option<String>,
    pub size_gb: Option<i64>,
    pub count: Option<i64>,
}

/// A memory module of a host.
#[derive(Debug)]
pub struct Memory {
    pub id: Option<i64>,
    pub size_gb: Option<i64>,
    pub handle: Option<String>,
}

/// A processor of a host.
#[derive(Debug)]
pub struct Processor {
    pub id: Option<i64>,
    pub handle: Option<String>,
    pub vendor: Option<String>,
    pub product: Option<String>,
    pub cores: Option<i64>,
    pub threads: Option<i64>,
}

/// A host.
#[derive(Debug)]
pub struct Host {
    pub id: Option<i64>,
    pub name: String,
    pub model: Option<String>,
    pub host_type: Option<String>,
    pub cloud: Option<CloudRef>,
    pub default_cloud: Option<CloudRef>,
    pub broken: Option<bool>,
    pub retired: Option<bool>,
    pub build: Option<bool>,
    pub validated: Option<bool>,
    pub can_self_schedule: Option<bool>,
    pub rack: Option<String>,
    pub switch_config_applied: Option<bool>,
    pub last_build: Option<String>,
    pub interfaces: Vec<Interface>,
    pub disks: Vec<Disk>,
    pub memory: Vec<Memory>,
    pub processors: Vec<Processor>,
}

/// The name of an optional cloud reference.
pub open spec fn ref_name(c: Option<CloudRef>) -> Option<Seq<char>> {
    match c {
        Some(r) => Some(r.name@),
        None => None,
    }
}

fn ref_name_of(c: &Option<CloudRef>) -> (r: Option<&str>)
    ensures
        match r {
            Some(s) => ref_name(*c) == Some(s@),
            None => ref_name(*c) is None,
        },
{
    match c {
        Some(cr) => Some(cr.name.as_str()),
        None => None,
    }
}

/// Whether two optional texts are equal.
pub fn opt_text_eq(a: Option<&str>, b: Option<&str>) -> (r: bool)
    ensures
        r == (match (a, b) {
            (Some(x), Some(y)) => x@ == y@,
            (None, None) => true,
            _ => false,
        }),
{
    match (a, b) {
        (Some(x), Some(y)) => text_eq(x, y),
        (None, None) => true,
        _ => false,
    }
}

/// Where a host stands.
#[derive(Debug, Clone, Copy, PartialEq, Eq, Structural)]
pub enum HostStatus {
    Available,
    Scheduled,
    Broken,
    Retired,
}

/// Whether a flag is set (`Some(true)`).
pub open spec fn is_set(f: Option<bool>) -> bool {
    f == Some(true)
}

impl Host {
    /// The name of the host's current cloud.
    pub open spec fn cloud_view(&self) -> Option<Seq<char>> {
        ref_name(self.cloud)
    }

    /// The name of the host's default cloud.
    pub open spec fn default_cloud_view(&self) -> Option<Seq<char>> {
        ref_name(self.default_cloud)
    }

    /// Whether the host is in its default cloud (neither cloud known counts
    /// as the same).
    pub open spec fn at_home(&self) -> bool {
        self.cloud_view() == self.default_cloud_view()
    }

    /// Where the host stands: broken first, then retired, then available in
    /// its default cloud or scheduled away from it.
    pub open spec fn status_of(&self) -> HostStatus {
        if is_set(self.broken) {
            HostStatus::Broken
        } else if is_set(self.retired) {
            HostStatus::Retired
        } else if self.at_home() {
            HostStatus::Available
        } else {
            HostStatus::Scheduled
        }
    }

    /// The name of the host's current cloud.
    pub fn cloud_name(&self) -> (r: Option<&str>)
        ensures
            match r {
                Some(s) => self.cloud_view() == Some(s@),
                None => self.cloud_view() is None,
            },
    {
        ref_name_of(&self.cloud)
    }

    /// The name of the host's default cloud.
    pub fn default_cloud_name(&self) -> (r: Option<&str>)
        ensures
            match r {
                Some(s) => self.default_cloud_view() == Some(s@),
                None => self.default_cloud_view() is None,
            },
    {
        ref_name_of(&self.default_cloud)
    }

    /// Whether the host is in its default cloud.
    pub fn in_default_cloud(&self) -> (r: bool)
        ensures
            r == self.at_home(),
    {
        opt_text_eq(self.cloud_name(), self.default_cloud_name())
    }

    /// Where the host stands.
    pub fn status(&self) -> (r: HostStatus)
        ensures
            r == self.status_of(),
    {
        if self.broken == Some(true) {
            HostStatus::Broken
        } else if self.retired == Some(true) {
            HostStatus::Retired
        } else if self.in_default_cloud() {
            HostStatus::Available
        } else {
            HostStatus::Scheduled
        }
    }
}

/// A cloud.
#[derive(Debug)]
pub struct Cloud {
    pub id: Option<i64>,
    pub name: String,
    pub last_redefined: Option<Value>,
}

/// An assignment of a cloud to an owner.
#[derive(Debug)]
pub struct Assignment {
    pub id: Option<i64>,
    pub active: Option<bool>,
    pub provisioned: Option<bool>,
    pub validated: Option<bool>,
    pub description: Option<String>,
    pub owner: Option<String>,
    pub ticket: Option<String>,
    pub qinq: Option<i64>,
    pub wipe: Option<bool>,
    pub ccuser: Option<Value>,
    pub cloud: Option<CloudRef>,
    pub vlan: Option<Value>,
    pub is_self_schedule: Option<bool>,
    pub created_at: Option<String>,
}

/// A copy of an optional cloud reference.
pub fn copy_ref_opt(c: &Option<CloudRef>) -> (r: Option<CloudRef>)
    ensures
        r == *c,
{
    match c {
        Some(x) => Some(x.duplicate()),
        None => None,
    }
}

impl Assignment {
    /// The name of the assigned cloud.
    pub open spec fn cloud_view(&self) -> Option<Seq<char>> {
        ref_name(self.cloud)
    }

    /// The owner, as text.
    pub open spec fn owner_view(&self) -> Option<Seq<char>> {
        opt_view(self.owner)
    }

    /// The name of the assigned cloud.
    pub fn cloud_name(&self) -> (r: Option<&str>)
        ensures
            match r {
                Some(s) => self.cloud_view() == Some(s@),
                None => self.cloud_view() is None,
            },
    {
        ref_name_of(&self.cloud)
    }

    /// A copy of this assignment.
    pub fn duplicate(&self) -> (r: Self)
        ensures
            r == *self,
    {
        Assignment {
            id: self.id,
            active: self.active,
            provisioned: self.provisioned,
            validated: self.validated,
            description: copy_opt(&self.description),
            owner: copy_opt(&self.owner),
            ticket: copy_opt(&self.ticket),
            qinq: self.qinq,
            wipe: self.wipe,
            ccuser: copy_json_opt(&self.ccuser),
            cloud: copy_ref_opt(&self.cloud),
            vlan: copy_json_opt(&self.vlan),
            is_self_schedule: self.is_self_schedule,
            created_at: copy_opt(&self.created_at),
        }
    }
}

/// A host's place in an assignment for a time.
#[derive(Debug)]
pub struct Schedule {
    pub id: Option<i64>,
    pub start: Option<String>,
    pub end: Option<String>,
    pub build_start: Option<String>,
    pub build_end: Option<String>,
    pub host: Option<Value>,
    pub cloud: Option<Value>,
    pub assignment_id: Option<i64>,
}

impl Schedule {
    /// The name of the scheduled host: the `name` member of `host` where it
    /// is a string, `unknown` otherwise.
    pub open spec fn host_name_of(&self) -> Seq<char> {
        match self.host {
            Some(h) => match member_text(h, "name"@) {
                Some(t) => t,
                None => "unknown"@,
            },
            None => "unknown"@,
        }
    }

    /// The name of the scheduled host.
    pub fn host_name(&self) -> (r: String)
        ensures
            r@ == self.host_name_of(),
    {
        match &self.host {
            Some(h) => match get_text(h, "name") {
                Some(t) => t,
                None => String::from_str("unknown"),
            },
            None => String::from_str("unknown"),
        }
    }
}

/// A cloud with its current use.
#[derive(Debug)]
pub struct CloudSummary {
    pub name: String,
    pub count: Option<i64>,
    pub description: Option<String>,
    pub owner: Option<String>,
    pub ticket: Option<String>,
    pub ccuser: Option<Value>,
    pub provisioned: Option<bool>,
    pub validated: Option<bool>,
    pub is_self_schedule: Option<bool>,
}

} // verus!
