//! One-shot device resolution at startup: given an optional friendly-name
//! filter and the enumerated active capture devices, pick the device the
//! process will drive for its whole lifetime.

use vstd::prelude::*;
use crate::errors::StartupError;

verus! {

/// Which endpoint the resolver picked.  The surrounding program turns this
/// into the operating system's device object: the default capture endpoint,
/// or the device at the given position in the active-device enumeration.
#[derive(Clone, Copy, PartialEq, Eq, Structural, Debug)]
pub enum DeviceId {
    SystemDefault,
    ActiveIndex(usize),
}

/// The resolved device: which one it is, and its human-readable name, kept
/// only for display.
#[derive(Debug)]
pub struct DeviceDescriptor {
    pub id: DeviceId,
    pub friendly_name: String,
}

/// Whether the name at position `i` equals the filter exactly.
pub open spec fn name_matches(names: Seq<Seq<char>>, filter: Seq<char>, i: int) -> bool {
    0 <= i < names.len() && names[i] == filter
}

/// Whether any active device name equals the filter exactly.
pub open spec fn has_match(names: Seq<Seq<char>>, filter: Seq<char>) -> bool {
    exists|i: int| name_matches(names, filter, i)
}

/// What `resolve` must return: without a filter, the system default device
/// under its own name; with a filter, the first active device whose name
/// equals the filter exactly, or `DeviceNotFound` when none does.
pub open spec fn resolution_ok(
    filter: Option<Seq<char>>,
    default_name: Seq<char>,
    names: Seq<Seq<char>>,
    r: Result<DeviceDescriptor, StartupError>,
) -> bool {
    match filter {
        Option::None => match r {
            Result::Ok(d) => d.id == DeviceId::SystemDefault && d.friendly_name@ == default_name,
            Result::Err(_) => false,
        },
        Option::Some(f) => if has_match(names, f) {
            match r {
                Result::Ok(d) => match d.id {
                    DeviceId::ActiveIndex(i) => {
                        &&& d.friendly_name@ == f
                        &&& name_matches(names, f, i as int)
                        &&& forall|j: int| 0 <= j < i ==> !name_matches(names, f, j)
                    },
                    DeviceId::SystemDefault => false,
                },
                Result::Err(_) => false,
            }
        } else {
            r == Result::<DeviceDescriptor, StartupError>::Err(StartupError::DeviceNotFound)
        },
    }
}

/// The view of the filter: the searched name's characters, if one was given.
pub open spec fn filter_view(filter: Option<String>) -> Option<Seq<char>> {
    match filter {
        Option::None => Option::None,
        Option::Some(f) => Option::Some(f@),
    }
}

/// Picks the capture device to use.
///
/// Without a filter, the system default capture device is chosen, whatever
/// the active-device set holds.  With a filter, the first active device whose
/// friendly name equals the filter exactly (case-sensitive) is chosen; when
/// none matches, resolution fails with `DeviceNotFound` and startup aborts.
pub fn resolve(
    filter: Option<String>,
    default_name: String,
    active_names: &Vec<String>,
) -> (r: Result<DeviceDescriptor, StartupError>)
    ensures
        resolution_ok(filter_view(filter), default_name@, active_names.deep_view(), r),
{
    if filter.is_none() {
        return Ok(DeviceDescriptor { id: DeviceId::SystemDefault, friendly_name: default_name });
    }
    let f = filter.unwrap();
    let n = active_names.len();
    let mut i: usize = 0;
    while i < n
        invariant
            filter_view(filter) == Option::Some(f@),
            n == active_names.len(),
            i <= n,
            forall|j: int| 0 <= j < i ==> !name_matches(active_names.deep_view(), f@, j),
        decreases n - i,
    {
        if active_names[i] == f {
            proof {
                assert(active_names.deep_view()[i as int] == active_names@[i as int]@);
                assert(name_matches(active_names.deep_view(), f@, i as int));
                assert(has_match(active_names.deep_view(), f@));
            }
            return Ok(DeviceDescriptor { id: DeviceId::ActiveIndex(i), friendly_name: f });
        }
        proof {
            assert(active_names.deep_view()[i as int] == active_names@[i as int]@);
        }
        i = i + 1;
    }
    proof {
        assert(!has_match(active_names.deep_view(), f@));
    }
    Err(StartupError::DeviceNotFound)
}

} // verus!
