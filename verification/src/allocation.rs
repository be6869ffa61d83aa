//! Assignment of queue families to functional roles.
//!
//! The classified families of one accelerator are bucketed by category, in
//! driver enumeration order, and the buckets are consumed by a fixed
//! priority chain: dedicated compute and transfer families are preferred
//! over a pair of async families, a pair of async families over a pair of
//! spare main-capable families, and a single shared async-class family over
//! nothing — so that queue parallelism is maximized while the assignment
//! degrades gracefully down to a single synchronous main queue.

use vstd::prelude::*;

use crate::error::EngineError;
use crate::queuefamilies::{
    spec_classify, QueueFamily, QueueFamilyCapability, QueueFamilyType,
};

verus! {

/// One queue family after classification: its index and its category.
#[derive(Clone, Copy, Debug, PartialEq, Eq, Structural)]
pub struct CategorizedFamily {
    pub index: usize,
    pub category: QueueFamilyType,
}

/// The indices of the families of category `t`, in enumeration order.
pub open spec fn bucket(cat: Seq<CategorizedFamily>, t: QueueFamilyType) -> Seq<usize>
    decreases cat.len(),
{
    if cat.len() == 0 {
        Seq::empty()
    } else {
        let rest = bucket(cat.drop_last(), t);
        if cat.last().category == t {
            rest.push(cat.last().index)
        } else {
            rest
        }
    }
}

/// How the compute- and transfer-class roles are resolved: the first
/// satisfied branch of the fallback chain, evaluated top to bottom.
#[derive(Clone, Copy, Debug, PartialEq, Eq, Structural)]
pub enum AsyncResolution {
    /// A dedicated compute family and a dedicated transfer family exist:
    /// one of each backs the `Compute` and `Transfer` roles.
    DedicatedPair,
    /// At least two async families exist: the first backs `Compute`, the
    /// second `Transfer`.
    AsyncPair,
    /// At least two main-capable families are spare after the `Main` role
    /// took one: the first spare backs `Compute`, the second `Transfer`.
    MainPair,
    /// A single async family exists: it backs the combined `Async` role,
    /// which serves both compute- and transfer-class work.
    SharedAsync,
    /// A single spare main-capable family exists: it backs the combined
    /// `Async` role.
    SharedMain,
    /// Nothing is left over: only synchronous main work is possible.
    Synchronous,
}

/// The branch of the fallback chain that applies to `cat`.
///
/// `MainPair` asks for three main-capable families in all (one consumed by
/// the `Main` role plus two spare), `SharedMain` for two.
pub open spec fn spec_resolution(cat: Seq<CategorizedFamily>) -> AsyncResolution {
    if bucket(cat, QueueFamilyType::Compute).len() > 0 && bucket(
        cat,
        QueueFamilyType::Transfer,
    ).len() > 0 {
        AsyncResolution::DedicatedPair
    } else if bucket(cat, QueueFamilyType::Async).len() >= 2 {
        AsyncResolution::AsyncPair
    } else if bucket(cat, QueueFamilyType::Main).len() >= 3 {
        AsyncResolution::MainPair
    } else if bucket(cat, QueueFamilyType::Async).len() >= 1 {
        AsyncResolution::SharedAsync
    } else if bucket(cat, QueueFamilyType::Main).len() >= 2 {
        AsyncResolution::SharedMain
    } else {
        AsyncResolution::Synchronous
    }
}

/// The family index behind the `Main` role: the first main-capable family,
/// if any.
pub open spec fn spec_main_index(cat: Seq<CategorizedFamily>) -> Option<usize> {
    if bucket(cat, QueueFamilyType::Main).len() > 0 {
        Some(bucket(cat, QueueFamilyType::Main)[0])
    } else {
        None
    }
}

/// The family index behind the dedicated `Compute` role, by the resolved
/// branch.
pub open spec fn spec_compute_index(cat: Seq<CategorizedFamily>) -> Option<usize> {
    match spec_resolution(cat) {
        AsyncResolution::DedicatedPair => Some(bucket(cat, QueueFamilyType::Compute)[0]),
        AsyncResolution::AsyncPair => Some(bucket(cat, QueueFamilyType::Async)[0]),
        AsyncResolution::MainPair => Some(bucket(cat, QueueFamilyType::Main)[1]),
        _ => None,
    }
}

/// The family index behind the dedicated `Transfer` role, by the resolved
/// branch.
pub open spec fn spec_transfer_index(cat: Seq<CategorizedFamily>) -> Option<usize> {
    match spec_resolution(cat) {
        AsyncResolution::DedicatedPair => Some(bucket(cat, QueueFamilyType::Transfer)[0]),
        AsyncResolution::AsyncPair => Some(bucket(cat, QueueFamilyType::Async)[1]),
        AsyncResolution::MainPair => Some(bucket(cat, QueueFamilyType::Main)[2]),
        _ => None,
    }
}

/// The family index behind the combined `Async` role, by the resolved
/// branch.
pub open spec fn spec_async_index(cat: Seq<CategorizedFamily>) -> Option<usize> {
    match spec_resolution(cat) {
        AsyncResolution::SharedAsync => Some(bucket(cat, QueueFamilyType::Async)[0]),
        AsyncResolution::SharedMain => Some(bucket(cat, QueueFamilyType::Main)[1]),
        _ => None,
    }
}

/// The family index behind the optional `Sparse` role: the first
/// sparse-binding family, if any.
pub open spec fn spec_sparse_index(cat: Seq<CategorizedFamily>) -> Option<usize> {
    if bucket(cat, QueueFamilyType::Sparse).len() > 0 {
        Some(bucket(cat, QueueFamilyType::Sparse)[0])
    } else {
        None
    }
}

/// The family index assigned to role `t` over the classified families
/// `cat`, per the decision table.
pub open spec fn spec_assigned_index(cat: Seq<CategorizedFamily>, t: QueueFamilyType) -> Option<
    usize,
> {
    match t {
        QueueFamilyType::Main => spec_main_index(cat),
        QueueFamilyType::Async => spec_async_index(cat),
        QueueFamilyType::Compute => spec_compute_index(cat),
        QueueFamilyType::Transfer => spec_transfer_index(cat),
        QueueFamilyType::Sparse => spec_sparse_index(cat),
    }
}

/// The role assignment of one accelerator: at most one family per role.
///
/// Built by [`QueueFamilyMap::allocate`]; the queue handles stay unset
/// until the logical device exists and [`crate::gpu::GPU::get_queues`]
/// fills them in.
#[derive(Clone, Debug, PartialEq, Eq)]
pub struct QueueFamilyMap {
    pub main: Option<QueueFamily>,
    pub asynch: Option<QueueFamily>,
    pub compute: Option<QueueFamily>,
    pub transfer: Option<QueueFamily>,
    pub sparse: Option<QueueFamily>,
}

impl QueueFamilyMap {
    /// The role entry for category `t`.
    pub open spec fn spec_role(self, t: QueueFamilyType) -> Option<QueueFamily> {
        match t {
            QueueFamilyType::Main => self.main,
            QueueFamilyType::Async => self.asynch,
            QueueFamilyType::Compute => self.compute,
            QueueFamilyType::Transfer => self.transfer,
            QueueFamilyType::Sparse => self.sparse,
        }
    }

    /// The index of the family behind role `t`, if the role is assigned.
    pub open spec fn spec_role_index(self, t: QueueFamilyType) -> Option<usize> {
        match self.spec_role(t) {
            Some(f) => Some(f.index),
            None => None,
        }
    }

    /// The queue handle of role `t`, if the role is assigned and its handle
    /// has been retrieved.
    pub open spec fn spec_role_queue(self, t: QueueFamilyType) -> Option<u64> {
        match self.spec_role(t) {
            Some(f) => f.queue,
            None => None,
        }
    }

    /// `m` assigns exactly the indices that the decision table assigns over
    /// `cat`, with no queue handle retrieved yet.
    pub open spec fn is_allocation_of(self, cat: Seq<CategorizedFamily>) -> bool {
        &&& forall|t: QueueFamilyType| #[trigger]
            self.spec_role_index(t) == spec_assigned_index(cat, t)
        &&& forall|t: QueueFamilyType|
            (#[trigger] self.spec_role(t)) is Some ==> self.spec_role(t)->Some_0.queue is None
    }

    /// Buckets the classified families by category, preserving enumeration
    /// order, and consumes the buckets by the fallback chain of
    /// [`spec_resolution`]. Never fails: an accelerator with no usable
    /// families yields an assignment without a `Main` entry, which the
    /// selector treats as disqualifying.
    pub fn allocate(categorized: &Vec<CategorizedFamily>) -> (r: QueueFamilyMap)
        ensures
            r.is_allocation_of(categorized@),
    {
        let mut main_queues: Vec<usize> = Vec::new();
        let mut async_queues: Vec<usize> = Vec::new();
        let mut compute_queues: Vec<usize> = Vec::new();
        let mut transfer_queues: Vec<usize> = Vec::new();
        let mut sparse_queues: Vec<usize> = Vec::new();

        let mut i: usize = 0;
        while i < categorized.len()
            invariant
                i <= categorized.len(),
                main_queues@ == bucket(categorized@.take(i as int), QueueFamilyType::Main),
                async_queues@ == bucket(categorized@.take(i as int), QueueFamilyType::Async),
                compute_queues@ == bucket(categorized@.take(i as int), QueueFamilyType::Compute),
                transfer_queues@ == bucket(categorized@.take(i as int), QueueFamilyType::Transfer),
                sparse_queues@ == bucket(categorized@.take(i as int), QueueFamilyType::Sparse),
            decreases categorized.len() - i,
        {
            let family = categorized[i];
            match family.category {
                QueueFamilyType::Main => main_queues.push(family.index),
                QueueFamilyType::Async => async_queues.push(family.index),
                QueueFamilyType::Compute => compute_queues.push(family.index),
                QueueFamilyType::Transfer => transfer_queues.push(family.index),
                QueueFamilyType::Sparse => sparse_queues.push(family.index),
            }
            proof {
                assert(categorized@.take(i + 1).drop_last() =~= categorized@.take(i as int));
                assert(categorized@.take(i + 1).last() == categorized@[i as int]);
            }
            i += 1;
        }
        proof {
            assert(categorized@.take(categorized@.len() as int) =~= categorized@);
        }

        let main = if main_queues.len() > 0 {
            Some(QueueFamily::new(main_queues[0]))
        } else {
            None
        };

        let mut compute: Option<QueueFamily> = None;
        let mut transfer: Option<QueueFamily> = None;
        let mut asynch: Option<QueueFamily> = None;

        if compute_queues.len() > 0 && transfer_queues.len() > 0 {
            compute = Some(QueueFamily::new(compute_queues[0]));
            transfer = Some(QueueFamily::new(transfer_queues[0]));
        } else if async_queues.len() >= 2 {
            compute = Some(QueueFamily::new(async_queues[0]));
            transfer = Some(QueueFamily::new(async_queues[1]));
        } else if main_queues.len() >= 3 {
            compute = Some(QueueFamily::new(main_queues[1]));
            transfer = Some(QueueFamily::new(main_queues[2]));
        } else if async_queues.len() >= 1 {
            asynch = Some(QueueFamily::new(async_queues[0]));
        } else if main_queues.len() >= 2 {
            asynch = Some(QueueFamily::new(main_queues[1]));
        }

        let sparse = if sparse_queues.len() > 0 {
            Some(QueueFamily::new(sparse_queues[0]))
        } else {
            None
        };

        let r = QueueFamilyMap { main, asynch, compute, transfer, sparse };
        proof {
            assert forall|t: QueueFamilyType| #[trigger] r.spec_role_index(t)
                == spec_assigned_index(categorized@, t) by {
                match t {
                    QueueFamilyType::Main => {},
                    QueueFamilyType::Async => {},
                    QueueFamilyType::Compute => {},
                    QueueFamilyType::Transfer => {},
                    QueueFamilyType::Sparse => {},
                }
            }
        }
        r
    }

    /// Whether role `family_type` is assigned.
    pub fn contains(&self, family_type: &QueueFamilyType) -> (r: bool)
        ensures
            r == self.spec_role(*family_type) is Some,
    {
        match family_type {
            QueueFamilyType::Main => self.main.is_some(),
            QueueFamilyType::Async => self.asynch.is_some(),
            QueueFamilyType::Compute => self.compute.is_some(),
            QueueFamilyType::Transfer => self.transfer.is_some(),
            QueueFamilyType::Sparse => self.sparse.is_some(),
        }
    }

    /// The index of the family behind role `family_type`, if assigned.
    pub fn index(&self, family_type: &QueueFamilyType) -> (r: Option<usize>)
        ensures
            r == self.spec_role_index(*family_type),
    {
        match self.role(family_type) {
            Some(f) => Some(f.index),
            None => None,
        }
    }

    /// The queue handle of role `family_type`, if assigned and retrieved.
    pub fn queue(&self, family_type: &QueueFamilyType) -> (r: Option<u64>)
        ensures
            r == self.spec_role_queue(*family_type),
    {
        match self.role(family_type) {
            Some(f) => f.queue,
            None => None,
        }
    }

    /// The role entry for `family_type`.
    fn role(&self, family_type: &QueueFamilyType) -> (r: Option<QueueFamily>)
        ensures
            r == self.spec_role(*family_type),
    {
        match family_type {
            QueueFamilyType::Main => self.main,
            QueueFamilyType::Async => self.asynch,
            QueueFamilyType::Compute => self.compute,
            QueueFamilyType::Transfer => self.transfer,
            QueueFamilyType::Sparse => self.sparse,
        }
    }
}

/// The classified families have pairwise-distinct indices.
pub open spec fn distinct_indices(cat: Seq<CategorizedFamily>) -> bool {
    forall|i: int, j: int|
        0 <= i < j < cat.len() ==> #[trigger] cat[i].index != #[trigger] cat[j].index
}

/// Every entry of a bucket is the index of some classified family of that
/// category.
proof fn lemma_bucket_membership(cat: Seq<CategorizedFamily>, t: QueueFamilyType, i: int)
    requires
        0 <= i < bucket(cat, t).len(),
    ensures
        exists|k: int|
            0 <= k < cat.len() && #[trigger] cat[k].index == bucket(cat, t)[i] && cat[k].category
                == t,
    decreases cat.len(),
{
    let rest = bucket(cat.drop_last(), t);
    if cat.last().category == t && i == rest.len() {
        assert(cat[cat.len() - 1].index == bucket(cat, t)[i] && cat[cat.len() - 1].category == t);
    } else {
        lemma_bucket_membership(cat.drop_last(), t, i);
        let k: int = choose|k: int|
            0 <= k < cat.drop_last().len() && #[trigger] cat.drop_last()[k].index == bucket(
                cat.drop_last(),
                t,
            )[i] && cat.drop_last()[k].category == t;
        assert(cat[k].index == bucket(cat, t)[i] && cat[k].category == t);
    }
}

/// Over families with distinct indices, no bucket repeats an index.
proof fn lemma_bucket_no_dup(cat: Seq<CategorizedFamily>, t: QueueFamilyType)
    requires
        distinct_indices(cat),
    ensures
        forall|i: int, j: int|
            0 <= i < j < bucket(cat, t).len() ==> #[trigger] bucket(cat, t)[i] != #[trigger] bucket(
                cat,
                t,
            )[j],
    decreases cat.len(),
{
    if cat.len() > 0 {
        lemma_bucket_no_dup(cat.drop_last(), t);
        let rest = bucket(cat.drop_last(), t);
        assert forall|i: int, j: int|
            0 <= i < j < bucket(cat, t).len() implies #[trigger] bucket(cat, t)[i]
            != #[trigger] bucket(cat, t)[j] by {
            if cat.last().category == t && j == rest.len() {
                lemma_bucket_membership(cat.drop_last(), t, i);
                let k: int = choose|k: int|
                    0 <= k < cat.drop_last().len() && #[trigger] cat.drop_last()[k].index == bucket(
                        cat.drop_last(),
                        t,
                    )[i] && cat.drop_last()[k].category == t;
                assert(cat[k].index != cat[cat.len() - 1].index);
            }
        }
    }
}

/// Over families with distinct indices, buckets of two different categories
/// share no index.
proof fn lemma_buckets_disjoint(cat: Seq<CategorizedFamily>, t1: QueueFamilyType, t2: QueueFamilyType)
    requires
        distinct_indices(cat),
        t1 != t2,
    ensures
        forall|i: int, j: int|
            0 <= i < bucket(cat, t1).len() && 0 <= j < bucket(cat, t2).len() ==> #[trigger] bucket(
                cat,
                t1,
            )[i] != #[trigger] bucket(cat, t2)[j],
{
    assert forall|i: int, j: int|
        0 <= i < bucket(cat, t1).len() && 0 <= j < bucket(cat, t2).len() implies #[trigger] bucket(
        cat,
        t1,
    )[i] != #[trigger] bucket(cat, t2)[j] by {
        lemma_bucket_membership(cat, t1, i);
        lemma_bucket_membership(cat, t2, j);
        let k1: int = choose|k: int|
            0 <= k < cat.len() && #[trigger] cat[k].index == bucket(cat, t1)[i] && cat[k].category
                == t1;
        let k2: int = choose|k: int|
            0 <= k < cat.len() && #[trigger] cat[k].index == bucket(cat, t2)[j] && cat[k].category
                == t2;
        assert(k1 != k2);
        assert(cat[k1].index != cat[k2].index);
    }
}

/// The allocator never assigns the same family index to two distinct roles:
/// over any classified family list with pairwise-distinct indices, the
/// indices assigned to the `Main`, `Compute`, `Transfer`, `Async` and
/// `Sparse` roles are pairwise distinct. (The shared-async fallback reuses
/// one family for both compute- and transfer-class work, but it does so
/// through the single combined `Async` role, never by giving two roles the
/// same family.)
pub proof fn lemma_no_double_assignment(cat: Seq<CategorizedFamily>)
    requires
        distinct_indices(cat),
    ensures
        forall|t1: QueueFamilyType, t2: QueueFamilyType|
            t1 != t2 && #[trigger] spec_assigned_index(cat, t1) is Some
                && #[trigger] spec_assigned_index(cat, t2) is Some ==> spec_assigned_index(cat, t1)
                != spec_assigned_index(cat, t2),
{
    lemma_bucket_no_dup(cat, QueueFamilyType::Main);
    lemma_bucket_no_dup(cat, QueueFamilyType::Async);
    lemma_buckets_disjoint(cat, QueueFamilyType::Main, QueueFamilyType::Async);
    lemma_buckets_disjoint(cat, QueueFamilyType::Main, QueueFamilyType::Compute);
    lemma_buckets_disjoint(cat, QueueFamilyType::Main, QueueFamilyType::Transfer);
    lemma_buckets_disjoint(cat, QueueFamilyType::Main, QueueFamilyType::Sparse);
    lemma_buckets_disjoint(cat, QueueFamilyType::Async, QueueFamilyType::Compute);
    lemma_buckets_disjoint(cat, QueueFamilyType::Async, QueueFamilyType::Transfer);
    lemma_buckets_disjoint(cat, QueueFamilyType::Async, QueueFamilyType::Sparse);
    lemma_buckets_disjoint(cat, QueueFamilyType::Compute, QueueFamilyType::Transfer);
    lemma_buckets_disjoint(cat, QueueFamilyType::Compute, QueueFamilyType::Sparse);
    lemma_buckets_disjoint(cat, QueueFamilyType::Transfer, QueueFamilyType::Sparse);
}

/// The same law at the level of a built assignment: a role map allocated
/// over classified families with pairwise-distinct indices never backs two
/// distinct roles with the same family index.
pub proof fn lemma_map_no_double_assignment(m: QueueFamilyMap, cat: Seq<CategorizedFamily>)
    requires
        m.is_allocation_of(cat),
        distinct_indices(cat),
    ensures
        forall|t1: QueueFamilyType, t2: QueueFamilyType|
            t1 != t2 && #[trigger] m.spec_role_index(t1) is Some && #[trigger] m.spec_role_index(
                t2,
            ) is Some ==> m.spec_role_index(t1) != m.spec_role_index(t2),
{
    lemma_no_double_assignment(cat);
}

/// The dedicated `Compute` and `Transfer` roles come and go together, and
/// never beside the combined `Async` role: an assignment holds either both
/// of them, or the `Async` role alone, or none of the three.
pub proof fn lemma_compute_transfer_paired(cat: Seq<CategorizedFamily>)
    ensures
        spec_compute_index(cat) is Some <==> spec_transfer_index(cat) is Some,
        spec_async_index(cat) is Some ==> spec_compute_index(cat) is None,
{
}

/// The classified form of each family, in enumeration order, or the first
/// classification error.
pub open spec fn spec_classify_all(fams: Seq<QueueFamilyCapability>) -> Result<
    Seq<CategorizedFamily>,
    EngineError,
> {
    if (exists|k: int| 0 <= k < fams.len() && spec_classify(fams[k].flags, fams[k].surface_support) is Err) {
        let k = spec_first_unclassifiable(fams);
        Err(spec_classify(fams[k].flags, fams[k].surface_support)->Err_0)
    } else {
        Ok(Seq::new(fams.len(), |k: int| CategorizedFamily {
            index: fams[k].index,
            category: spec_classify(fams[k].flags, fams[k].surface_support)->Ok_0,
        }))
    }
}

/// The position of the first family that fails classification.
pub open spec fn spec_first_unclassifiable(fams: Seq<QueueFamilyCapability>) -> int {
    choose|k: int|
        0 <= k < fams.len() && spec_classify(fams[k].flags, fams[k].surface_support) is Err
            && (forall|j: int|
            0 <= j < k ==> spec_classify(fams[j].flags, #[trigger] fams[j].surface_support) is Ok)
}

/// Classifies each reported family and allocates roles over the result.
///
/// Returns the first classification error, if any family fails to
/// classify; classification errors are fatal, not skipped, since they mean
/// the rule set does not cover the encountered hardware.
pub fn populate(families: &Vec<QueueFamilyCapability>) -> (r: Result<QueueFamilyMap, EngineError>)
    ensures
        (match spec_classify_all(families@) {
            Ok(cat) => r is Ok && r->Ok_0.is_allocation_of(cat),
            Err(e) => r == Err::<QueueFamilyMap, EngineError>(e),
        }),
{
    let mut categorized: Vec<CategorizedFamily> = Vec::new();

    let mut i: usize = 0;
    while i < families.len()
        invariant
            i <= families.len(),
            forall|k: int|
                0 <= k < i ==> spec_classify(
                    families@[k].flags,
                    #[trigger] families@[k].surface_support,
                ) is Ok,
            categorized@.len() == i,
            forall|k: int|
                0 <= k < i ==> #[trigger] categorized@[k] == (CategorizedFamily {
                    index: families@[k].index,
                    category: spec_classify(families@[k].flags, families@[k].surface_support)->Ok_0,
                }),
        decreases families.len() - i,
    {
        let family = &families[i];
        match QueueFamily::find_type(family.flags, family.surface_support) {
            Ok(t) => {
                categorized.push(CategorizedFamily { index: family.index, category: t });
            },
            Err(e) => {
                proof {
                    let k = spec_first_unclassifiable(families@);
                    assert(0 <= k < families@.len() && spec_classify(
                        families@[k].flags,
                        families@[k].surface_support,
                    ) is Err && (forall|j: int|
                        0 <= j < k ==> spec_classify(
                            families@[j].flags,
                            #[trigger] families@[j].surface_support,
                        ) is Ok)) by {
                        assert(0 <= i < families@.len() && spec_classify(
                            families@[i as int].flags,
                            families@[i as int].surface_support,
                        ) is Err && (forall|j: int|
                            0 <= j < i ==> spec_classify(
                                families@[j].flags,
                                #[trigger] families@[j].surface_support,
                            ) is Ok));
                    }
                    assert(k == i) by {
                        if k < i {
                            assert(spec_classify(
                                families@[k].flags,
                                families@[k].surface_support,
                            ) is Ok);
                        }
                        if k > i {
                            assert(spec_classify(
                                families@[i as int].flags,
                                families@[i as int].surface_support,
                            ) is Ok);
                        }
                    }
                }
                return Err(e);
            },
        }
        i += 1;
    }

    proof {
        if (exists|k: int|
            0 <= k < families@.len() && spec_classify(
                families@[k].flags,
                #[trigger] families@[k].surface_support,
            ) is Err) {
            let k = choose|k: int|
                0 <= k < families@.len() && spec_classify(
                    families@[k].flags,
                    #[trigger] families@[k].surface_support,
                ) is Err;
            assert(spec_classify(families@[k].flags, families@[k].surface_support) is Ok);
        }
        assert(categorized@ =~= spec_classify_all(families@)->Ok_0);
    }

    Ok(QueueFamilyMap::allocate(&categorized))
}

} // verus!
