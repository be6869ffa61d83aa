//! Queue family capabilities and their classification into functional
//! categories.
//!
//! The driver reports, per queue family, a set of capability flags and
//! (through a separate query) whether the family can present to the
//! surface at hand. Classification turns those facts into exactly one
//! functional category, by a fixed rule list in which the first match wins.

use vstd::prelude::*;

use crate::error::EngineError;

verus! {

/// Capability flags of one queue family, with named members in place of a
/// raw driver bitmask.
#[derive(Clone, Copy, Debug, PartialEq, Eq, Structural)]
pub struct QueueFlags {
    pub graphics: bool,
    pub compute: bool,
    pub transfer: bool,
    pub sparse_binding: bool,
}

/// The functional category of a queue family.
///
/// `Main` families carry synchronous graphics, compute and transfer work and
/// can present to the surface; `Async` families carry compute and transfer
/// work off the main family; `Compute` and `Transfer` are the dedicated
/// single-purpose categories; `Sparse` families bind sparse memory.
#[derive(Clone, Copy, Debug, PartialEq, Eq, Structural)]
pub enum QueueFamilyType {
    Main,
    Async,
    Compute,
    Transfer,
    Sparse,
}

/// The name of a category, for the variant `Main` the string `"main"`, and
/// so on for the rest.
pub open spec fn spec_type_name(t: QueueFamilyType) -> Seq<char> {
    match t {
        QueueFamilyType::Main => "main"@,
        QueueFamilyType::Async => "async"@,
        QueueFamilyType::Compute => "compute"@,
        QueueFamilyType::Transfer => "transfer"@,
        QueueFamilyType::Sparse => "sparse"@,
    }
}

impl QueueFamilyType {
    /// The category's lower-case name.
    pub fn string(family_type: &Self) -> (r: String)
        ensures
            r@ == spec_type_name(*family_type),
    {
        match family_type {
            QueueFamilyType::Main => String::from_str("main"),
            QueueFamilyType::Async => String::from_str("async"),
            QueueFamilyType::Compute => String::from_str("compute"),
            QueueFamilyType::Transfer => String::from_str("transfer"),
            QueueFamilyType::Sparse => String::from_str("sparse"),
        }
    }
}

/// Everything the driver reports about one queue family: its ordinal
/// position in the enumeration, its capability flags, and the result of the
/// surface-support query for the surface at hand (`None` when that query
/// failed at the driver level).
#[derive(Clone, Copy, Debug, PartialEq, Eq)]
pub struct QueueFamilyCapability {
    pub index: usize,
    pub flags: QueueFlags,
    pub surface_support: Option<bool>,
}

/// The classification rule list, first match wins:
///
/// 1. sparse binding set: `Sparse`;
/// 2. graphics, compute and transfer all set: `Main`, provided the
///    surface-support query succeeded and returned true — a failed query is
///    the error `SurfaceQuery`, and a family without surface support falls
///    through to the remaining rules;
/// 3. compute and transfer set: `Async`;
/// 4. compute set: `Compute`;
/// 5. transfer set: `Transfer`;
/// 6. otherwise the family is unclassifiable, the error
///    `UnclassifiableFamily`.
pub open spec fn spec_classify(
    flags: QueueFlags,
    surface_support: Option<bool>,
) -> Result<QueueFamilyType, EngineError> {
    if flags.sparse_binding {
        Ok(QueueFamilyType::Sparse)
    } else if flags.graphics && flags.compute && flags.transfer && surface_support is None {
        Err(EngineError::SurfaceQuery)
    } else if flags.graphics && flags.compute && flags.transfer && surface_support == Some(true) {
        Ok(QueueFamilyType::Main)
    } else if flags.compute && flags.transfer {
        Ok(QueueFamilyType::Async)
    } else if flags.compute {
        Ok(QueueFamilyType::Compute)
    } else if flags.transfer {
        Ok(QueueFamilyType::Transfer)
    } else {
        Err(EngineError::UnclassifiableFamily)
    }
}

/// One queue family chosen for a role: the family's index, and the queue
/// handle retrieved from it once the logical device exists (`None` until
/// then).
#[derive(Clone, Copy, Debug, PartialEq, Eq)]
pub struct QueueFamily {
    pub index: usize,
    pub queue: Option<u64>,
}

impl QueueFamily {
    /// A role entry backed by the family `index`, its queue handle not yet
    /// retrieved.
    pub fn new(index: usize) -> (r: Self)
        ensures
            r.index == index,
            r.queue is None,
    {
        QueueFamily { index, queue: None }
    }

    /// Classifies one queue family by the rule list of [`spec_classify`].
    ///
    /// `surface_support` is the result of the driver's surface-support query
    /// for this family, `None` when the query failed; the query result is
    /// consulted only by the `Main` rule.
    pub fn find_type(flags: QueueFlags, surface_support: Option<bool>) -> (r: Result<
        QueueFamilyType,
        EngineError,
    >)
        ensures
            r == spec_classify(flags, surface_support),
    {
        if flags.sparse_binding {
            return Ok(QueueFamilyType::Sparse);
        }
        if flags.graphics && flags.compute && flags.transfer {
            match surface_support {
                None => {
                    return Err(EngineError::SurfaceQuery);
                },
                Some(true) => {
                    return Ok(QueueFamilyType::Main);
                },
                Some(false) => {},
            }
        }
        if flags.compute && flags.transfer {
            return Ok(QueueFamilyType::Async);
        }
        if flags.compute {
            return Ok(QueueFamilyType::Compute);
        }
        if flags.transfer {
            return Ok(QueueFamilyType::Transfer);
        }
        Err(EngineError::UnclassifiableFamily)
    }
}

/// Surface support decides `Main`: a family whose flags include graphics,
/// compute and transfer (and not sparse binding, which an earlier rule
/// claims first) classifies as `Main` exactly when the surface-support
/// query returned true. Without surface support the family is never `Main`
/// and does not fall back silently: it classifies as `Async` through the
/// remaining rules, since compute and transfer are among its flags.
pub proof fn lemma_main_requires_surface_support(flags: QueueFlags)
    requires
        flags.graphics,
        flags.compute,
        flags.transfer,
        !flags.sparse_binding,
    ensures
        spec_classify(flags, Some(true)) == Ok::<QueueFamilyType, EngineError>(
            QueueFamilyType::Main,
        ),
        spec_classify(flags, Some(false)) == Ok::<QueueFamilyType, EngineError>(
            QueueFamilyType::Async,
        ),
        spec_classify(flags, Some(false)) != Ok::<QueueFamilyType, EngineError>(
            QueueFamilyType::Main,
        ),
{
}

} // verus!
