use gvp_engine::error::EngineError;
use gvp_engine::queuefamilies::{QueueFamily, QueueFamilyType, QueueFlags};

fn flags(graphics: bool, compute: bool, transfer: bool, sparse_binding: bool) -> QueueFlags {
    QueueFlags { graphics, compute, transfer, sparse_binding }
}

#[test]
fn full_flags_with_surface_support_is_main() {
    let r = QueueFamily::find_type(flags(true, true, true, false), Some(true));
    assert_eq!(r, Ok(QueueFamilyType::Main));
}

#[test]
fn full_flags_without_surface_support_falls_through_to_async() {
    let r = QueueFamily::find_type(flags(true, true, true, false), Some(false));
    assert_eq!(r, Ok(QueueFamilyType::Async));
    assert_ne!(r, Ok(QueueFamilyType::Main));
}

#[test]
fn full_flags_with_failed_surface_query_is_an_error() {
    let r = QueueFamily::find_type(flags(true, true, true, false), None);
    assert_eq!(r, Err(EngineError::SurfaceQuery));
}

#[test]
fn sparse_binding_wins_over_everything() {
    let r = QueueFamily::find_type(flags(true, true, true, true), Some(true));
    assert_eq!(r, Ok(QueueFamilyType::Sparse));
}

#[test]
fn sparse_binding_alone_is_sparse() {
    let r = QueueFamily::find_type(flags(false, false, false, true), Some(false));
    assert_eq!(r, Ok(QueueFamilyType::Sparse));
}

#[test]
fn compute_and_transfer_is_async() {
    let r = QueueFamily::find_type(flags(false, true, true, false), Some(false));
    assert_eq!(r, Ok(QueueFamilyType::Async));
}

#[test]
fn compute_alone_is_compute() {
    let r = QueueFamily::find_type(flags(false, true, false, false), Some(false));
    assert_eq!(r, Ok(QueueFamilyType::Compute));
}

#[test]
fn transfer_alone_is_transfer() {
    let r = QueueFamily::find_type(flags(false, false, true, false), Some(false));
    assert_eq!(r, Ok(QueueFamilyType::Transfer));
}

#[test]
fn graphics_and_compute_without_transfer_is_compute() {
    let r = QueueFamily::find_type(flags(true, true, false, false), Some(true));
    assert_eq!(r, Ok(QueueFamilyType::Compute));
}

#[test]
fn no_flags_is_unclassifiable() {
    let r = QueueFamily::find_type(flags(false, false, false, false), Some(true));
    assert_eq!(r, Err(EngineError::UnclassifiableFamily));
}

#[test]
fn graphics_alone_is_unclassifiable() {
    let r = QueueFamily::find_type(flags(true, false, false, false), Some(true));
    assert_eq!(r, Err(EngineError::UnclassifiableFamily));
}

#[test]
fn surface_query_is_ignored_outside_the_main_rule() {
    // A failed query only matters to the Main rule: a pure async family
    // classifies fine without a query result.
    let r = QueueFamily::find_type(flags(false, true, true, false), None);
    assert_eq!(r, Ok(QueueFamilyType::Async));
}

#[test]
fn category_names() {
    assert_eq!(QueueFamilyType::string(&QueueFamilyType::Main), "main");
    assert_eq!(QueueFamilyType::string(&QueueFamilyType::Async), "async");
    assert_eq!(QueueFamilyType::string(&QueueFamilyType::Compute), "compute");
    assert_eq!(QueueFamilyType::string(&QueueFamilyType::Transfer), "transfer");
    assert_eq!(QueueFamilyType::string(&QueueFamilyType::Sparse), "sparse");
}

#[test]
fn new_family_has_no_queue_handle() {
    let f = QueueFamily::new(3);
    assert_eq!(f.index, 3);
    assert_eq!(f.queue, None);
}
