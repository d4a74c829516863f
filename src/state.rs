//! The device and cable store.

use vstd::prelude::*;
use crate::network::{NetworkCable, NetworkDevice};
use crate::text::chars_of;

verus! {

/// All devices, each id once, and the cables between their ports.
pub struct NetworkState {
    pub devices: Vec<NetworkDevice>,
    pub cables: Vec<NetworkCable>,
}

/// The position of the first device at or after `j` whose id is `id`.
pub open spec fn device_from(ds: Seq<NetworkDevice>, id: Seq<char>, j: int) -> Option<int>
    decreases ds.len() - j,
{
    if j < 0 || j >= ds.len() {
        None
    } else if ds[j].id@ == id {
        Some(j)
    } else {
        device_from(ds, id, j + 1)
    }
}

/// The position of the device whose id is `id`.
pub open spec fn find_device(ds: Seq<NetworkDevice>, id: Seq<char>) -> Option<int> {
    device_from(ds, id, 0)
}

/// No two devices share an id.
pub open spec fn ids_unique(ds: Seq<NetworkDevice>) -> bool {
    forall|i: int, j: int| 0 <= i < j < ds.len() ==> ds[i].id@ != ds[j].id@
}

pub proof fn lemma_device_from_found(ds: Seq<NetworkDevice>, id: Seq<char>, j: int)
    requires
        0 <= j,
    ensures
        device_from(ds, id, j) matches Some(i) ==> j <= i < ds.len() && ds[i].id@ == id,
        device_from(ds, id, j) is None ==> forall|k: int| j <= k < ds.len() ==> ds[k].id@ != id,
    decreases ds.len() - j,
{
    if 0 <= j < ds.len() && ds[j].id@ != id {
        lemma_device_from_found(ds, id, j + 1);
    }
}

/// With unique ids, a device is found at its own position.
pub proof fn lemma_find_unique(ds: Seq<NetworkDevice>, i: int)
    requires
        ids_unique(ds),
        0 <= i < ds.len(),
    ensures
        find_device(ds, ds[i].id@) == Some(i),
{
    lemma_find_unique_from(ds, i, 0);
}

proof fn lemma_find_unique_from(ds: Seq<NetworkDevice>, i: int, j: int)
    requires
        ids_unique(ds),
        0 <= j <= i < ds.len(),
    ensures
        device_from(ds, ds[i].id@, j) == Some(i),
    decreases i - j,
{
    if j < i {
        lemma_find_unique_from(ds, i, j + 1);
    }
}

/// The position of the device whose id is `id`.
pub fn device_index(ds: &Vec<NetworkDevice>, id: &str) -> (r: Option<usize>)
    ensures
        match r {
            Some(i) => find_device(ds@, id@) == Some(i as int) && i < ds@.len(),
            None => find_device(ds@, id@) is None,
        },
{
    let idv = chars_of(id);
    let mut i: usize = 0;
    while i < ds.len()
        invariant
            i <= ds@.len(),
            idv@ == id@,
            find_device(ds@, id@) == device_from(ds@, id@, i as int),
        decreases ds.len() - i,
    {
        if crate::text::is_lit(&chars_of(ds[i].id.as_str()), id) {
            return Some(i);
        }
        i = i + 1;
    }
    None
}

/// What loading `ds` leaves: the devices in order of first appearance of their ids, each id
/// holding the last device given with it.
pub open spec fn loaded(ds: Seq<NetworkDevice>) -> Seq<NetworkDevice>
    decreases ds.len(),
{
    if ds.len() == 0 {
        seq![]
    } else {
        let r = loaded(ds.drop_last());
        match find_device(r, ds.last().id@) {
            Some(i) => r.update(i, ds.last()),
            None => r.push(ds.last()),
        }
    }
}

impl NetworkState {
    /// Well-formed: device ids are unique.
    pub open spec fn wf(&self) -> bool {
        ids_unique(self.devices@)
    }

    /// An empty store.
    pub fn new() -> (r: Self)
        ensures
            r.devices@.len() == 0,
            r.cables@.len() == 0,
            r.wf(),
    {
        NetworkState { devices: Vec::new(), cables: Vec::new() }
    }

    /// Replaces the whole topology; of devices that share an id the last one stays.
    pub fn set_topology(&mut self, devices: Vec<NetworkDevice>, cables: Vec<NetworkCable>)
        ensures
            final(self).devices@ == loaded(devices@),
            final(self).cables@ == cables@,
            final(self).wf(),
    {
        let mut out: Vec<NetworkDevice> = Vec::new();
        let mut rest = devices;
        let ghost all = rest@;
        while rest.len() > 0
            invariant
                rest@.len() <= all.len(),
                rest@ == all.subrange(all.len() - rest@.len(), all.len() as int),
                out@ == loaded(all.take(all.len() - rest@.len())),
                ids_unique(out@),
            decreases rest.len(),
        {
            let ghost k = all.len() - rest@.len();
            let d = rest.remove(0);
            assert(all[k] == d);
            assert(all.take(k + 1).drop_last() =~= all.take(k));
            assert(rest@ =~= all.subrange(k + 1, all.len() as int));
            match device_index(&out, d.id.as_str()) {
                Some(j) => {
                    proof { lemma_device_from_found(out@, d.id@, 0); }
                    out.set(j, d);
                },
                None => {
                    proof { lemma_device_from_found(out@, d.id@, 0); }
                    out.push(d);
                },
            }
        }
        assert(all.take(all.len() as int) =~= all);
        self.devices = out;
        self.cables = cables;
    }
}

} // verus!
