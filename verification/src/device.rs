use vstd::prelude::*;

use crate::config::StreamSpec;

verus! {

/// What the interface shows of an audio device.
#[derive(Debug)]
pub struct DeviceSpecs {
    id: String,
    name: String,
    config: Option<StreamSpec>,
}

/// The id shown for a device whose id could not be read.
pub open spec fn unknown_id() -> Seq<char> {
    "UNKNOWN"@
}

/// The name shown for a device whose name could not be read.
pub open spec fn unknown_name() -> Seq<char> {
    "Unknown device"@
}

impl DeviceSpecs {
    pub closed spec fn id_spec(&self) -> Seq<char> {
        self.id@
    }

    pub closed spec fn name_spec(&self) -> Seq<char> {
        self.name@
    }

    pub closed spec fn config_spec(&self) -> Option<StreamSpec> {
        self.config
    }

    /// The specs of a device from what could be read of it: its id and
    /// name (`None` where reading failed) and the default configuration
    /// of the direction it serves (`None` where there is none). An id or
    /// name that could not be read is shown with a placeholder.
    pub fn from_queries(id: Option<String>, name: Option<String>, config: Option<StreamSpec>) -> (d:
        DeviceSpecs)
        ensures
            d.id_spec() == (match id {
                Some(s) => s@,
                None => unknown_id(),
            }),
            d.name_spec() == (match name {
                Some(s) => s@,
                None => unknown_name(),
            }),
            d.config_spec() == config,
    {
        let id = match id {
            Some(s) => s,
            None => String::from_str("UNKNOWN"),
        };
        let name = match name {
            Some(s) => s,
            None => String::from_str("Unknown device"),
        };
        DeviceSpecs { id, name, config }
    }

    pub fn id(&self) -> (s: &str)
        ensures
            s@ == self.id_spec(),
    {
        self.id.as_str()
    }

    pub fn name(&self) -> (s: &str)
        ensures
            s@ == self.name_spec(),
    {
        self.name.as_str()
    }

    pub fn config(&self) -> (c: Option<&StreamSpec>)
        ensures
            c == (match self.config_spec() {
                Some(x) => Some(&x),
                None => None::<&StreamSpec>,
            }),
    {
        self.config.as_ref()
    }
}

/// The configuration shown for a device: its default input configuration
/// when it can capture, its default output configuration otherwise.
pub fn default_config(supports_input: bool, input: Option<StreamSpec>, output: Option<StreamSpec>) -> (c:
    Option<StreamSpec>)
    ensures
        c == (if supports_input {
            input
        } else {
            output
        }),
{
    if supports_input {
        input
    } else {
        output
    }
}

/// The outcome of looking a device up by id among the devices of a host.
#[derive(Debug, Clone, Copy, PartialEq, Eq, Structural)]
pub enum DeviceSearch {
    /// The device at this position is the first whose id matches.
    Found(usize),
    /// The id of the device at this position could not be read, and no
    /// device before it matched.
    Unreadable(usize),
    /// Every id could be read and none matches.
    NotFound,
}

/// Whether `id` is a readable id equal to `wanted`.
pub open spec fn id_matches(id: Option<String>, wanted: Seq<char>) -> bool {
    match id {
        Some(s) => s@ == wanted,
        None => false,
    }
}

/// Walks the ids of a host's devices in order, as read from each device
/// (`None` where reading failed), and stops at the first one that equals
/// `device_id` or cannot be read.
pub fn find_device(ids: &[Option<String>], device_id: &str) -> (r: DeviceSearch)
    ensures
        match r {
            DeviceSearch::Found(i) => {
                &&& i < ids@.len()
                &&& id_matches(ids@[i as int], device_id@)
                &&& forall|j: int| 0 <= j < i ==> ids@[j] is Some && !id_matches(ids@[j], device_id@)
            },
            DeviceSearch::Unreadable(i) => {
                &&& i < ids@.len()
                &&& ids@[i as int] is None
                &&& forall|j: int| 0 <= j < i ==> ids@[j] is Some && !id_matches(ids@[j], device_id@)
            },
            DeviceSearch::NotFound => forall|j: int|
                0 <= j < ids@.len() ==> ids@[j] is Some && !id_matches(ids@[j], device_id@),
        },
{
    let wanted = String::from_str(device_id);
    let mut i: usize = 0;
    while i < ids.len()
        invariant
            i <= ids@.len(),
            wanted@ == device_id@,
            forall|j: int| 0 <= j < i ==> ids@[j] is Some && !id_matches(ids@[j], device_id@),
        decreases ids@.len() - i,
    {
        match &ids[i] {
            Some(id) => {
                if *id == wanted {
                    return DeviceSearch::Found(i);
                }
            },
            None => {
                return DeviceSearch::Unreadable(i);
            },
        }
        i = i + 1;
    }
    DeviceSearch::NotFound
}

} // verus!
