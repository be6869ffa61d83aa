//! Physical accelerator selection, and the queue bookkeeping for
//! provisioning the logical device.
//!
//! The caller enumerates the accelerators and hands over, per candidate,
//! everything the driver reports: the device type, the queue family
//! capabilities, the surface formats and present modes, and the supported
//! extension names. Selection filters and ranks the candidates and carries
//! the winner's queue role assignment forward.

use vstd::prelude::*;

use crate::allocation::{populate, spec_classify_all, spec_main_index, CategorizedFamily, QueueFamilyMap};
use crate::error::EngineError;
use crate::queuefamilies::{QueueFamilyCapability, QueueFamilyType};
use crate::renderer::SurfaceFormat;

verus! {

/// The type of a physical accelerator, as the driver reports it.
#[derive(Clone, Copy, Debug, PartialEq, Eq, Structural)]
pub enum DeviceType {
    Discrete,
    Integrated,
    Virtual,
    Cpu,
    Other,
}

/// Whether a challenger device type outranks the currently selected one.
///
/// `Other` stands for "nothing selected yet" and loses to any concrete
/// challenger; `Integrated` loses to `Discrete`; `Virtual` loses to both.
/// Equal types never outrank each other, so among equals the first
/// candidate found wins.
pub open spec fn spec_has_priority(current: DeviceType, challenger: DeviceType) -> bool {
    match (current, challenger) {
        (DeviceType::Other, _) => true,
        (DeviceType::Integrated, DeviceType::Discrete) => true,
        (DeviceType::Virtual, DeviceType::Discrete) => true,
        (DeviceType::Virtual, DeviceType::Integrated) => true,
        _ => false,
    }
}

/// Everything the driver reports about one candidate accelerator, with
/// `None` standing for a query that failed at the driver level.
#[derive(Clone, Debug)]
pub struct DeviceInfo {
    pub device_type: DeviceType,
    pub families: Vec<QueueFamilyCapability>,
    pub surface_formats: Option<Vec<SurfaceFormat>>,
    pub present_modes: Option<Vec<i32>>,
    pub extensions: Option<Vec<Vec<u8>>>,
}

/// Whether `name` occurs in `names` (exact byte-for-byte match).
pub open spec fn spec_names_contain(names: Seq<Vec<u8>>, name: Seq<u8>) -> bool {
    exists|i: int| 0 <= i < names.len() && #[trigger] names[i]@ == name
}

/// Whether every required name occurs among the supported ones.
pub open spec fn spec_all_contained(required: Seq<Vec<u8>>, supported: Seq<Vec<u8>>) -> bool {
    forall|i: int| 0 <= i < required.len() ==> spec_names_contain(supported, #[trigger] required[i]@)
}

/// Whether a candidate passes every filter that comes after the device-type
/// and priority checks: a `Main` role can be assigned over its classified
/// families `cat`, its surface format and present mode queries succeeded
/// with non-empty lists, and it supports every required extension.
pub open spec fn spec_candidate_suitable(
    d: DeviceInfo,
    cat: Seq<CategorizedFamily>,
    required: Seq<Vec<u8>>,
) -> bool {
    &&& spec_main_index(cat) is Some
    &&& d.surface_formats is Some && d.surface_formats->Some_0@.len() > 0
    &&& d.present_modes is Some && d.present_modes->Some_0@.len() > 0
    &&& d.extensions is Some && spec_all_contained(required, d.extensions->Some_0@)
}

/// The device type to rank a challenger against: the current best's type,
/// or `Other` while nothing is selected.
pub open spec fn spec_best_type(best: Option<(int, DeviceType)>) -> DeviceType {
    match best {
        Some(b) => b.1,
        None => DeviceType::Other,
    }
}

/// The selection scan from position `i` onward, with `best` the contender
/// found so far (its candidate position and device type).
///
/// Per candidate, in order: CPU and unclassified devices are skipped
/// outright; a candidate that does not outrank the contender is skipped; a
/// classification error aborts the whole scan; a candidate that fails any
/// remaining filter is skipped; and one that passes them all becomes the
/// contender.
pub open spec fn spec_scan(
    candidates: Seq<DeviceInfo>,
    required: Seq<Vec<u8>>,
    i: int,
    best: Option<(int, DeviceType)>,
) -> Result<Option<(int, DeviceType)>, EngineError>
    decreases candidates.len() - i,
{
    if i < 0 || i >= candidates.len() {
        Ok(best)
    } else {
        let d = candidates[i];
        if d.device_type == DeviceType::Cpu || d.device_type == DeviceType::Other {
            spec_scan(candidates, required, i + 1, best)
        } else if !spec_has_priority(spec_best_type(best), d.device_type) {
            spec_scan(candidates, required, i + 1, best)
        } else {
            match spec_classify_all(d.families@) {
                Err(e) => Err(e),
                Ok(cat) => if spec_candidate_suitable(d, cat, required) {
                    spec_scan(candidates, required, i + 1, Some((i, d.device_type)))
                } else {
                    spec_scan(candidates, required, i + 1, best)
                },
            }
        }
    }
}

/// The selected accelerator: its position among the enumerated candidates,
/// its device type, and its queue role assignment.
#[derive(Clone, Debug)]
pub struct GPU {
    pub device_index: usize,
    pub device_type: DeviceType,
    pub queue_families: QueueFamilyMap,
}

/// Whether `a` and `b` hold the same bytes.
fn bytes_eq(a: &Vec<u8>, b: &Vec<u8>) -> (r: bool)
    ensures
        r == (a@ == b@),
{
    if a.len() != b.len() {
        proof {
            assert(a@ != b@);
        }
        return false;
    }
    let mut i: usize = 0;
    while i < a.len()
        invariant
            i <= a.len(),
            a@.len() == b@.len(),
            forall|k: int| 0 <= k < i ==> a@[k] == b@[k],
        decreases a.len() - i,
    {
        if a[i] != b[i] {
            proof {
                assert(a@ != b@);
            }
            return false;
        }
        i += 1;
    }
    proof {
        assert(a@ =~= b@);
    }
    true
}

/// Whether `name` occurs in `names` (exact match).
fn names_contain(names: &Vec<Vec<u8>>, name: &Vec<u8>) -> (r: bool)
    ensures
        r == spec_names_contain(names@, name@),
{
    let mut i: usize = 0;
    while i < names.len()
        invariant
            i <= names.len(),
            forall|k: int| 0 <= k < i ==> #[trigger] names@[k]@ != name@,
        decreases names.len() - i,
    {
        if bytes_eq(&names[i], name) {
            return true;
        }
        i += 1;
    }
    false
}

/// Whether every required name occurs among the supported ones.
fn all_contained(required: &Vec<Vec<u8>>, supported: &Vec<Vec<u8>>) -> (r: bool)
    ensures
        r == spec_all_contained(required@, supported@),
{
    let mut i: usize = 0;
    while i < required.len()
        invariant
            i <= required.len(),
            forall|k: int|
                0 <= k < i ==> spec_names_contain(supported@, #[trigger] required@[k]@),
        decreases required.len() - i,
    {
        if !names_contain(supported, &required[i]) {
            return false;
        }
        i += 1;
    }
    true
}

impl GPU {
    /// Whether `gpu2` outranks `gpu1` in the device-type priority order.
    pub fn has_priority(gpu1: DeviceType, gpu2: DeviceType) -> (r: bool)
        ensures
            r == spec_has_priority(gpu1, gpu2),
    {
        match (gpu1, gpu2) {
            (DeviceType::Other, _) => true,
            (DeviceType::Integrated, DeviceType::Discrete) => true,
            (DeviceType::Virtual, DeviceType::Discrete) => true,
            (DeviceType::Virtual, DeviceType::Integrated) => true,
            _ => false,
        }
    }

    /// Scans the enumerated candidates and selects the best suitable one,
    /// by the filters and the device-type ranking of [`spec_scan`].
    ///
    /// Fails with `NoSuitableDevice` when no candidate survives the
    /// filters, and with the classification error when a contender's queue
    /// families cannot all be classified — the rule set not covering the
    /// hardware is fatal, not a skip.
    pub fn get(candidates: &Vec<DeviceInfo>, required_extensions: &Vec<Vec<u8>>) -> (r: Result<
        GPU,
        EngineError,
    >)
        ensures
            (match spec_scan(candidates@, required_extensions@, 0, None) {
                Ok(Some(b)) => r is Ok && r->Ok_0.device_index == b.0 && r->Ok_0.device_type == b.1
                    && r->Ok_0.queue_families.is_allocation_of(
                    spec_classify_all(candidates@[b.0].families@)->Ok_0,
                ),
                Ok(None) => r == Err::<GPU, EngineError>(EngineError::NoSuitableDevice),
                Err(e) => r == Err::<GPU, EngineError>(e),
            }),
            r is Ok ==> r->Ok_0.device_index < candidates@.len(),
            r is Ok ==> r->Ok_0.device_type == candidates@[r->Ok_0.device_index as int].device_type
                && r->Ok_0.device_type != DeviceType::Cpu && r->Ok_0.device_type
                != DeviceType::Other,
            r is Ok ==> spec_classify_all(candidates@[r->Ok_0.device_index as int].families@) is Ok
                && spec_candidate_suitable(
                candidates@[r->Ok_0.device_index as int],
                spec_classify_all(candidates@[r->Ok_0.device_index as int].families@)->Ok_0,
                required_extensions@,
            ),
            r is Ok ==> r->Ok_0.queue_families.spec_role(QueueFamilyType::Main) is Some,
    {
        let ghost required: Seq<Vec<u8>> = required_extensions@;

        let mut best_index: usize = 0;
        let mut best_type: DeviceType = DeviceType::Other;
        let mut best_map: Option<QueueFamilyMap> = None;
        let ghost mut best: Option<(int, DeviceType)> = None;

        let mut i: usize = 0;
        while i < candidates.len()
            invariant
                i <= candidates.len(),
                spec_scan(candidates@, required, i as int, best) == spec_scan(
                    candidates@,
                    required,
                    0,
                    None,
                ),
                required == required_extensions@,
                (match best {
                    None => best_map is None && best_type == DeviceType::Other,
                    Some(b) => {
                        &&& 0 <= b.0 < i
                        &&& best_index == b.0
                        &&& best_type == b.1
                        &&& b.1 == candidates@[b.0].device_type
                        &&& b.1 != DeviceType::Cpu && b.1 != DeviceType::Other
                        &&& spec_classify_all(candidates@[b.0].families@) is Ok
                        &&& spec_candidate_suitable(
                            candidates@[b.0],
                            spec_classify_all(candidates@[b.0].families@)->Ok_0,
                            required,
                        )
                        &&& best_map is Some
                        &&& best_map->Some_0.is_allocation_of(
                            spec_classify_all(candidates@[b.0].families@)->Ok_0,
                        )
                    },
                }),
            decreases candidates.len() - i,
        {
            let d = &candidates[i];

            let skip = match d.device_type {
                DeviceType::Cpu => true,
                DeviceType::Other => true,
                _ => false,
            };
            if skip {
                i += 1;
                continue;
            }

            if !GPU::has_priority(best_type, d.device_type) {
                i += 1;
                continue;
            }

            let map = match populate(&d.families) {
                Ok(map) => map,
                Err(e) => {
                    return Err(e);
                },
            };

            proof {
                assert(map.spec_role_index(QueueFamilyType::Main) == spec_main_index(
                    spec_classify_all(candidates@[i as int].families@)->Ok_0,
                ));
            }
            if !map.contains(&QueueFamilyType::Main) {
                i += 1;
                continue;
            }

            let formats_ok = match &d.surface_formats {
                Some(formats) => formats.len() > 0,
                None => false,
            };
            if !formats_ok {
                i += 1;
                continue;
            }

            let modes_ok = match &d.present_modes {
                Some(modes) => modes.len() > 0,
                None => false,
            };
            if !modes_ok {
                i += 1;
                continue;
            }

            let extensions_ok = match &d.extensions {
                Some(supported) => all_contained(required_extensions, supported),
                None => false,
            };
            if !extensions_ok {
                i += 1;
                continue;
            }

            best_index = i;
            best_type = d.device_type;
            best_map = Some(map);
            proof {
                best = Some((i as int, candidates@[i as int].device_type));
            }
            i += 1;
        }

        proof {
            if best is Some {
                let b = best->Some_0;
                let cat = spec_classify_all(candidates@[b.0].families@)->Ok_0;
                assert(best_map->Some_0.spec_role_index(QueueFamilyType::Main)
                    == crate::allocation::spec_assigned_index(cat, QueueFamilyType::Main));
            }
        }
        match best_map {
            Some(map) => Ok(
                GPU { device_index: best_index, device_type: best_type, queue_families: map },
            ),
            None => Err(EngineError::NoSuitableDevice),
        }
    }
}

/// `s` with the index in `x` appended, unless `x` is empty or the index is
/// already present.
pub open spec fn spec_push_if_new(s: Seq<usize>, x: Option<usize>) -> Seq<usize> {
    match x {
        Some(v) => if s.contains(v) {
            s
        } else {
            s.push(v)
        },
        None => s,
    }
}

/// The distinct family indices behind the assigned roles, visited in the
/// fixed role order `Main`, `Compute`, `Transfer`, `Async`, `Sparse`.
pub open spec fn spec_queue_create_indices(m: QueueFamilyMap) -> Seq<usize> {
    spec_push_if_new(
        spec_push_if_new(
            spec_push_if_new(
                spec_push_if_new(
                    spec_push_if_new(Seq::empty(), m.spec_role_index(QueueFamilyType::Main)),
                    m.spec_role_index(QueueFamilyType::Compute),
                ),
                m.spec_role_index(QueueFamilyType::Transfer),
            ),
            m.spec_role_index(QueueFamilyType::Async),
        ),
        m.spec_role_index(QueueFamilyType::Sparse),
    )
}

/// Appending preserves the absence of duplicates.
proof fn lemma_push_if_new_no_dup(s: Seq<usize>, x: Option<usize>)
    requires
        forall|i: int, j: int| 0 <= i < j < s.len() ==> s[i] != s[j],
    ensures
        forall|i: int, j: int|
            0 <= i < j < spec_push_if_new(s, x).len() ==> spec_push_if_new(s, x)[i]
                != spec_push_if_new(s, x)[j],
{
    if x is Some && !s.contains(x->Some_0) {
        let s2 = s.push(x->Some_0);
        assert forall|i: int, j: int| 0 <= i < j < s2.len() implies s2[i] != s2[j] by {
            if j == s.len() {
                if s2[i] == s2[j] {
                    assert(s.contains(x->Some_0));
                }
            }
        }
    }
}

/// Whether `x` occurs in `v`.
fn contains_index(v: &Vec<usize>, x: usize) -> (r: bool)
    ensures
        r == v@.contains(x),
{
    let mut i: usize = 0;
    while i < v.len()
        invariant
            i <= v.len(),
            forall|k: int| 0 <= k < i ==> #[trigger] v@[k] != x,
        decreases v.len() - i,
    {
        if v[i] == x {
            return true;
        }
        i += 1;
    }
    false
}

/// The queue handle paired with family index `idx` in `handles`: the first
/// pair carrying that index, if any.
pub open spec fn spec_lookup(handles: Seq<(usize, u64)>, idx: usize) -> Option<u64>
    decreases handles.len(),
{
    if handles.len() == 0 {
        None
    } else if handles[0].0 == idx {
        Some(handles[0].1)
    } else {
        spec_lookup(handles.drop_first(), idx)
    }
}

/// The first queue handle paired with `idx`, if `handles` has one.
fn lookup(handles: &Vec<(usize, u64)>, idx: usize) -> (r: Option<u64>)
    ensures
        r == spec_lookup(handles@, idx),
{
    let mut i: usize = 0;
    proof {
        assert(handles@.skip(0) =~= handles@);
    }
    while i < handles.len()
        invariant
            i <= handles.len(),
            spec_lookup(handles@, idx) == spec_lookup(handles@.skip(i as int), idx),
        decreases handles.len() - i,
    {
        proof {
            assert(handles@.skip(i as int)[0] == handles@[i as int]);
            assert(handles@.skip(i as int).drop_first() =~= handles@.skip(i + 1));
        }
        let (family_index, handle) = handles[i];
        if family_index == idx {
            return Some(handle);
        }
        i += 1;
    }
    None
}

impl GPU {
    /// The family indices to build queue-creation requests from: one entry
    /// per distinct family index present in the role assignment. A family
    /// backing two roles yields one entry, not two.
    pub fn queue_create_infos(&self) -> (r: Vec<usize>)
        ensures
            r@ == spec_queue_create_indices(self.queue_families),
            forall|i: int, j: int| 0 <= i < j < r@.len() ==> r@[i] != r@[j],
    {
        let mut indices: Vec<usize> = Vec::new();

        if let Some(f) = &self.queue_families.main {
            if !contains_index(&indices, f.index) {
                indices.push(f.index);
            }
        }
        if let Some(f) = &self.queue_families.compute {
            if !contains_index(&indices, f.index) {
                indices.push(f.index);
            }
        }
        if let Some(f) = &self.queue_families.transfer {
            if !contains_index(&indices, f.index) {
                indices.push(f.index);
            }
        }
        if let Some(f) = &self.queue_families.asynch {
            if !contains_index(&indices, f.index) {
                indices.push(f.index);
            }
        }
        if let Some(f) = &self.queue_families.sparse {
            if !contains_index(&indices, f.index) {
                indices.push(f.index);
            }
        }

        proof {
            let m = self.queue_families;
            let s0 = Seq::<usize>::empty();
            let s1 = spec_push_if_new(s0, m.spec_role_index(QueueFamilyType::Main));
            let s2 = spec_push_if_new(s1, m.spec_role_index(QueueFamilyType::Compute));
            let s3 = spec_push_if_new(s2, m.spec_role_index(QueueFamilyType::Transfer));
            let s4 = spec_push_if_new(s3, m.spec_role_index(QueueFamilyType::Async));
            lemma_push_if_new_no_dup(s0, m.spec_role_index(QueueFamilyType::Main));
            lemma_push_if_new_no_dup(s1, m.spec_role_index(QueueFamilyType::Compute));
            lemma_push_if_new_no_dup(s2, m.spec_role_index(QueueFamilyType::Transfer));
            lemma_push_if_new_no_dup(s3, m.spec_role_index(QueueFamilyType::Async));
            lemma_push_if_new_no_dup(s4, m.spec_role_index(QueueFamilyType::Sparse));
        }

        indices
    }

    /// Fills in each assigned role's queue handle from `handles`, the
    /// `(family index, queue handle)` pairs retrieved from the created
    /// logical device. The roles and their family indices are unchanged; a
    /// role whose family has no pair in `handles` keeps an empty handle.
    pub fn get_queues(&mut self, handles: &Vec<(usize, u64)>)
        ensures
            final(self).device_index == old(self).device_index,
            final(self).device_type == old(self).device_type,
            forall|t: QueueFamilyType| #[trigger] final(self).queue_families.spec_role_index(t)
                == old(self).queue_families.spec_role_index(t),
            forall|t: QueueFamilyType| #[trigger] final(self).queue_families.spec_role_queue(t)
                == (match old(self).queue_families.spec_role_index(t) {
                    Some(idx) => spec_lookup(handles@, idx),
                    None => None::<u64>,
                }),
    {
        match &mut self.queue_families.main {
            Some(f) => {
                f.queue = lookup(handles, f.index);
            },
            None => {},
        }
        match &mut self.queue_families.compute {
            Some(f) => {
                f.queue = lookup(handles, f.index);
            },
            None => {},
        }
        match &mut self.queue_families.transfer {
            Some(f) => {
                f.queue = lookup(handles, f.index);
            },
            None => {},
        }
        match &mut self.queue_families.asynch {
            Some(f) => {
                f.queue = lookup(handles, f.index);
            },
            None => {},
        }
        match &mut self.queue_families.sparse {
            Some(f) => {
                f.queue = lookup(handles, f.index);
            },
            None => {},
        }
    }
}

/// The extension names to enable at device creation: the base names, and
/// the portability-subset name appended when the accelerator advertises it
/// among its supported extensions (some non-native driver layers require
/// enabling that extension).
pub fn device_extensions(
    base: Vec<Vec<u8>>,
    supported: &Vec<Vec<u8>>,
    portability_name: Vec<u8>,
) -> (r: Vec<Vec<u8>>)
    ensures
        spec_names_contain(supported@, portability_name@) ==> r@ == base@.push(portability_name),
        !spec_names_contain(supported@, portability_name@) ==> r@ == base@,
{
    let mut out = base;
    if names_contain(supported, &portability_name) {
        out.push(portability_name);
    }
    out
}

/// A virtual-GPU candidate never replaces an already-selected discrete-GPU
/// contender: whatever the candidate at `i` offers, if the contender is
/// discrete and the candidate virtual, the scan skips it.
pub proof fn lemma_virtual_never_replaces_discrete(
    candidates: Seq<DeviceInfo>,
    required: Seq<Vec<u8>>,
    i: int,
    best: (int, DeviceType),
)
    requires
        0 <= i < candidates.len(),
        best.1 == DeviceType::Discrete,
        candidates[i].device_type == DeviceType::Virtual,
    ensures
        spec_scan(candidates, required, i, Some(best)) == spec_scan(
            candidates,
            required,
            i + 1,
            Some(best),
        ),
{
}

/// A discrete-GPU candidate scanned while an integrated-GPU contender is
/// selected replaces it, provided the candidate passes the remaining
/// filters.
pub proof fn lemma_discrete_replaces_integrated(
    candidates: Seq<DeviceInfo>,
    required: Seq<Vec<u8>>,
    i: int,
    best: (int, DeviceType),
)
    requires
        0 <= i < candidates.len(),
        best.1 == DeviceType::Integrated,
        candidates[i].device_type == DeviceType::Discrete,
        spec_classify_all(candidates[i].families@) is Ok,
        spec_candidate_suitable(
            candidates[i],
            spec_classify_all(candidates[i].families@)->Ok_0,
            required,
        ),
    ensures
        spec_scan(candidates, required, i, Some(best)) == spec_scan(
            candidates,
            required,
            i + 1,
            Some((i, DeviceType::Discrete)),
        ),
{
}

} // verus!
