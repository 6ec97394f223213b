//! External displays: which connectors count as external, and when one of them
//! reports a display.

use vstd::prelude::*;
use crate::text::contains;
use crate::text::lowercase_of;
use crate::text::occurs_in;
use crate::text::same_text;
use crate::text::to_lowercase;
use crate::text::trim;
use crate::text::trimmed_of;

verus! {

/// Where the kernel lists the connectors.
pub const DRM_PATH: &'static str = "/sys/class/drm";

/// A connector as the kernel lists it.
#[derive(Debug)]
pub struct ConnectorEntry {
    /// The connector's name.
    pub name: String,
    /// Where its status is shown, if it shows one.
    pub status_path: Option<String>,
}

/// Whether a connector's name marks it as one for an external display: it holds one
/// of `HDMI`, `DP`, `DisplayPort`, `DVI` and `VGA`.
pub open spec fn is_external_name(name: Seq<char>) -> bool {
    occurs_in("HDMI"@, name) || occurs_in("DP"@, name) || occurs_in("DisplayPort"@, name)
        || occurs_in("DVI"@, name) || occurs_in("VGA"@, name)
}

/// Whether a connector's status says that a display is connected: the word
/// `connected`, in any case, with or without white space round it.
pub open spec fn is_connected_status(status: Seq<char>) -> bool {
    lowercase_of(trimmed_of(status)) == "connected"@
}

/// The status paths of the connectors for external displays, in their order.
pub open spec fn external_status_paths(entries: Seq<ConnectorEntry>) -> Seq<String>
    decreases entries.len(),
{
    if entries.len() == 0 {
        Seq::empty()
    } else {
        let front = external_status_paths(entries.drop_last());
        let entry = entries.last();
        if is_external_name(entry.name@) && entry.status_path is Some {
            front.push(entry.status_path->Some_0)
        } else {
            front
        }
    }
}

/// Whether one of the readings says that a display is connected. A reading is what
/// a status path held, or nothing where it could not be read.
pub open spec fn any_connected(readings: Seq<Option<String>>) -> bool {
    exists|i: int|
        0 <= i < readings.len() && (#[trigger] readings[i]) is Some && is_connected_status(
            readings[i]->Some_0@,
        )
}

/// The names that mark a connector as one for an external display.
pub fn external_connectors() -> (names: Vec<&'static str>)
    ensures
        names@.len() == 5,
        names@[0]@ == "HDMI"@,
        names@[1]@ == "DP"@,
        names@[2]@ == "DisplayPort"@,
        names@[3]@ == "DVI"@,
        names@[4]@ == "VGA"@,
{
    let mut names: Vec<&'static str> = Vec::new();
    names.push("HDMI");
    names.push("DP");
    names.push("DisplayPort");
    names.push("DVI");
    names.push("VGA");
    names
}

/// Whether a connector's name marks it as one for an external display.
pub fn is_external_connector(name: &str) -> (external: bool)
    ensures
        external == is_external_name(name@),
{
    let names: Vec<&'static str> = external_connectors();
    let mut i: usize = 0;
    while i < 5
        invariant
            i <= 5,
            names@.len() == 5,
            names@[0]@ == "HDMI"@,
            names@[1]@ == "DP"@,
            names@[2]@ == "DisplayPort"@,
            names@[3]@ == "DVI"@,
            names@[4]@ == "VGA"@,
            forall|j: int| 0 <= j < i ==> !occurs_in((#[trigger] names@[j])@, name@),
        decreases 5 - i,
    {
        if contains(name, names[i]) {
            return true;
        }
        i = i + 1;
    }
    assert(!occurs_in(names@[0]@, name@));
    assert(!occurs_in(names@[1]@, name@));
    assert(!occurs_in(names@[2]@, name@));
    assert(!occurs_in(names@[3]@, name@));
    assert(!occurs_in(names@[4]@, name@));
    false
}

/// Whether a connector's status says that a display is connected.
pub fn is_connected(status: &str) -> (connected: bool)
    ensures
        connected == is_connected_status(status@),
{
    let trimmed: String = trim(status);
    let lower: String = to_lowercase(trimmed.as_str());
    same_text(lower.as_str(), "connected")
}

/// Knows where the connectors for external displays show their status.
#[derive(Debug)]
pub struct MonitorDetector {
    connector_paths: Vec<String>,
}

impl View for MonitorDetector {
    type V = Seq<String>;

    closed spec fn view(&self) -> Seq<String> {
        self.connector_paths@
    }
}

impl MonitorDetector {
    /// A detector for the connectors that the kernel lists: it keeps the status
    /// path of each connector for an external display that shows a status.
    pub fn new(entries: Vec<ConnectorEntry>) -> (d: Self)
        ensures
            d@ == external_status_paths(entries@),
    {
        Self { connector_paths: Self::find_external_connectors(&entries) }
    }

    /// The status paths of the connectors for external displays, in their order.
    pub fn find_external_connectors(entries: &Vec<ConnectorEntry>) -> (paths: Vec<String>)
        ensures
            paths@ == external_status_paths(entries@),
    {
        let n: usize = entries.len();
        let mut paths: Vec<String> = Vec::new();
        let mut i: usize = 0;
        while i < n
            invariant
                n == entries@.len(),
                i <= n,
                paths@ == external_status_paths(entries@.take(i as int)),
            decreases n - i,
        {
            proof {
                assert(entries@.take(i as int + 1).drop_last() =~= entries@.take(i as int));
            }
            let entry: &ConnectorEntry = &entries[i];
            if is_external_connector(entry.name.as_str()) {
                match &entry.status_path {
                    Some(path) => {
                        paths.push(path.clone());
                    },
                    None => {},
                }
            }
            i = i + 1;
        }
        assert(entries@.take(n as int) =~= entries@);
        paths
    }

    /// The status paths that are to be read, in their order.
    pub fn connector_paths(&self) -> (paths: &Vec<String>)
        ensures
            paths@ == self@,
    {
        &self.connector_paths
    }

    /// Whether an external display is connected, given what each status path held,
    /// or nothing for a path that could not be read.
    pub fn has_external_display_sync(&self, readings: &Vec<Option<String>>) -> (connected: bool)
        ensures
            connected == any_connected(readings@),
    {
        let n: usize = readings.len();
        let mut i: usize = 0;
        while i < n
            invariant
                n == readings@.len(),
                i <= n,
                forall|j: int|
                    0 <= j < i ==> !((#[trigger] readings@[j]) is Some && is_connected_status(
                        readings@[j]->Some_0@,
                    )),
            decreases n - i,
        {
            match &readings[i] {
                Some(status) => {
                    if is_connected(status.as_str()) {
                        return true;
                    }
                },
                None => {},
            }
            i = i + 1;
        }
        false
    }
}

} // verus!
