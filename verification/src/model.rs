//! The records that the router's data endpoint answers with.

use vstd::prelude::*;

verus! {

/// The state of one link, with its rates in both directions.
pub struct ConnectionInfo {
    pub state: String,
    pub up: String,
    pub down: String,
}

/// What the router says of itself.
pub struct OsInfo {
    pub product_name: String,
    pub is_update_available: bool,
    pub version: String,
    pub name: String,
}

pub struct OverviewData {
    pub os: OsInfo,
    pub internet: ConnectionInfo,
    pub dsl: ConnectionInfo,
}

/// The answer to the overview page.
pub struct Overview {
    pub pid: String,
    pub data: OverviewData,
}

pub struct IpV4 {
    pub ip: String,
    pub lastused: Option<String>,
}

/// One device that the router knows of.
pub struct Device {
    pub uid: String,
    pub classes: Option<String>,
    pub ipv4: Option<IpV4>,
    pub is_trusted: Option<bool>,
    pub mac: Option<String>,
    pub model: Option<String>,
    pub name: Option<String>,
    pub state: Option<String>,
    pub typ: Option<String>,
}

/// The two lists of the device page. Either may be missing.
pub struct DeviceData {
    pub passive: Option<Vec<Device>>,
    pub active: Option<Vec<Device>>,
}

/// The answer to the device page.
pub struct Devices {
    pub pid: String,
    pub data: Option<DeviceData>,
}

/// The devices of a list that may be missing: none if it is.
pub open spec fn listed(list: Option<Vec<Device>>) -> Seq<Device> {
    match list {
        Some(devices) => devices@,
        None => Seq::empty(),
    }
}

impl DeviceData {
    /// The active devices in their order, then the passive ones in theirs.
    pub open spec fn merged(&self) -> Seq<Device> {
        listed(self.active) + listed(self.passive)
    }
}

impl Devices {
    /// All devices as one sequence, or `None` where the answer has no data.
    pub open spec fn all(&self) -> Option<Seq<Device>> {
        match self.data {
            Some(data) => Some(data.merged()),
            None => None,
        }
    }

    /// All devices of the answer as one list: the active ones first, then
    /// the passive ones, each list in its own order. A missing list counts
    /// as an empty one. `None` only where the answer holds no data at all.
    pub fn devices(self) -> (r: Option<Vec<Device>>)
        ensures
            match self.all() {
                Some(all) => r matches Some(list) && list@ == all,
                None => r is None,
            },
    {
        match self.data {
            None => None,
            Some(data) => {
                let mut all: Vec<Device> = match data.active {
                    Some(active) => active,
                    None => Vec::new(),
                };
                match data.passive {
                    Some(mut passive) => {
                        all.append(&mut passive);
                    },
                    None => {
                        assert(all@ + Seq::<Device>::empty() =~= all@);
                    },
                }
                Some(all)
            },
        }
    }
}

} // verus!
