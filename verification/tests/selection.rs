use gvp_engine::error::EngineError;
use gvp_engine::gpu::{device_extensions, DeviceInfo, DeviceType, GPU};
use gvp_engine::queuefamilies::{QueueFamilyCapability, QueueFamilyType, QueueFlags};
use gvp_engine::renderer::SurfaceFormat;

fn main_family(index: usize) -> QueueFamilyCapability {
    QueueFamilyCapability {
        index,
        flags: QueueFlags { graphics: true, compute: true, transfer: true, sparse_binding: false },
        surface_support: Some(true),
    }
}

fn candidate(device_type: DeviceType) -> DeviceInfo {
    DeviceInfo {
        device_type,
        families: vec![main_family(0)],
        surface_formats: Some(vec![SurfaceFormat { format: 43, color_space: 0 }]),
        present_modes: Some(vec![2]),
        extensions: Some(vec![b"VK_KHR_swapchain".to_vec()]),
    }
}

fn swapchain_name() -> Vec<Vec<u8>> {
    vec![b"VK_KHR_swapchain".to_vec()]
}

#[test]
fn a_suitable_candidate_is_selected() {
    let candidates = vec![candidate(DeviceType::Discrete)];
    let gpu = GPU::get(&candidates, &swapchain_name()).unwrap();
    assert_eq!(gpu.device_index, 0);
    assert_eq!(gpu.device_type, DeviceType::Discrete);
    assert!(gpu.queue_families.contains(&QueueFamilyType::Main));
}

#[test]
fn virtual_gpu_never_replaces_a_discrete_one() {
    let candidates = vec![candidate(DeviceType::Discrete), candidate(DeviceType::Virtual)];
    let gpu = GPU::get(&candidates, &swapchain_name()).unwrap();
    assert_eq!(gpu.device_index, 0);
    assert_eq!(gpu.device_type, DeviceType::Discrete);
}

#[test]
fn discrete_gpu_replaces_an_integrated_one() {
    let candidates = vec![candidate(DeviceType::Integrated), candidate(DeviceType::Discrete)];
    let gpu = GPU::get(&candidates, &swapchain_name()).unwrap();
    assert_eq!(gpu.device_index, 1);
    assert_eq!(gpu.device_type, DeviceType::Discrete);
}

#[test]
fn integrated_gpu_never_replaces_a_discrete_one() {
    let candidates = vec![candidate(DeviceType::Discrete), candidate(DeviceType::Integrated)];
    let gpu = GPU::get(&candidates, &swapchain_name()).unwrap();
    assert_eq!(gpu.device_index, 0);
}

#[test]
fn first_found_wins_among_equal_types() {
    let candidates = vec![candidate(DeviceType::Integrated), candidate(DeviceType::Integrated)];
    let gpu = GPU::get(&candidates, &swapchain_name()).unwrap();
    assert_eq!(gpu.device_index, 0);
}

#[test]
fn integrated_gpu_replaces_a_virtual_one() {
    let candidates = vec![candidate(DeviceType::Virtual), candidate(DeviceType::Integrated)];
    let gpu = GPU::get(&candidates, &swapchain_name()).unwrap();
    assert_eq!(gpu.device_index, 1);
}

#[test]
fn cpu_and_unclassified_devices_are_never_selected() {
    let candidates = vec![candidate(DeviceType::Cpu), candidate(DeviceType::Other)];
    assert_eq!(
        GPU::get(&candidates, &swapchain_name()).unwrap_err(),
        EngineError::NoSuitableDevice
    );
}

#[test]
fn a_candidate_without_a_main_family_is_skipped() {
    let mut no_main = candidate(DeviceType::Discrete);
    no_main.families = vec![QueueFamilyCapability {
        index: 0,
        flags: QueueFlags { graphics: false, compute: true, transfer: true, sparse_binding: false },
        surface_support: Some(false),
    }];
    let candidates = vec![no_main, candidate(DeviceType::Integrated)];
    let gpu = GPU::get(&candidates, &swapchain_name()).unwrap();
    assert_eq!(gpu.device_index, 1);
}

#[test]
fn empty_surface_format_list_disqualifies() {
    let mut bad = candidate(DeviceType::Discrete);
    bad.surface_formats = Some(Vec::new());
    let candidates = vec![bad];
    assert_eq!(
        GPU::get(&candidates, &swapchain_name()).unwrap_err(),
        EngineError::NoSuitableDevice
    );
}

#[test]
fn failed_surface_format_query_disqualifies() {
    let mut bad = candidate(DeviceType::Discrete);
    bad.surface_formats = None;
    let candidates = vec![bad];
    assert!(GPU::get(&candidates, &swapchain_name()).is_err());
}

#[test]
fn empty_present_mode_list_disqualifies() {
    let mut bad = candidate(DeviceType::Discrete);
    bad.present_modes = Some(Vec::new());
    let candidates = vec![bad];
    assert!(GPU::get(&candidates, &swapchain_name()).is_err());
}

#[test]
fn a_missing_required_extension_disqualifies() {
    let mut bad = candidate(DeviceType::Discrete);
    bad.extensions = Some(vec![b"VK_KHR_surface".to_vec()]);
    let candidates = vec![bad];
    assert_eq!(
        GPU::get(&candidates, &swapchain_name()).unwrap_err(),
        EngineError::NoSuitableDevice
    );
}

#[test]
fn extension_match_is_exact() {
    let mut bad = candidate(DeviceType::Discrete);
    bad.extensions = Some(vec![b"VK_KHR_swapchain_extra".to_vec()]);
    let candidates = vec![bad];
    assert!(GPU::get(&candidates, &swapchain_name()).is_err());
}

#[test]
fn all_required_extensions_must_be_supported() {
    let mut good = candidate(DeviceType::Discrete);
    good.extensions = Some(vec![
        b"VK_KHR_swapchain".to_vec(),
        b"VK_KHR_dynamic_rendering".to_vec(),
    ]);
    let required = vec![
        b"VK_KHR_dynamic_rendering".to_vec(),
        b"VK_KHR_swapchain".to_vec(),
    ];
    let gpu = GPU::get(&vec![good], &required).unwrap();
    assert_eq!(gpu.device_index, 0);
}

#[test]
fn an_unclassifiable_family_on_a_contender_is_fatal() {
    let mut bad = candidate(DeviceType::Discrete);
    bad.families.push(QueueFamilyCapability {
        index: 1,
        flags: QueueFlags { graphics: true, compute: false, transfer: false, sparse_binding: false },
        surface_support: Some(true),
    });
    let candidates = vec![bad, candidate(DeviceType::Integrated)];
    assert_eq!(
        GPU::get(&candidates, &swapchain_name()).unwrap_err(),
        EngineError::UnclassifiableFamily
    );
}

#[test]
fn no_candidates_yields_no_suitable_device() {
    let candidates: Vec<DeviceInfo> = Vec::new();
    assert_eq!(
        GPU::get(&candidates, &swapchain_name()).unwrap_err(),
        EngineError::NoSuitableDevice
    );
}

#[test]
fn winner_carries_its_queue_assignment() {
    let mut rich = candidate(DeviceType::Discrete);
    rich.families = vec![
        main_family(0),
        QueueFamilyCapability {
            index: 1,
            flags: QueueFlags { graphics: false, compute: true, transfer: false, sparse_binding: false },
            surface_support: Some(false),
        },
        QueueFamilyCapability {
            index: 2,
            flags: QueueFlags { graphics: false, compute: false, transfer: true, sparse_binding: false },
            surface_support: Some(false),
        },
    ];
    let gpu = GPU::get(&vec![rich], &swapchain_name()).unwrap();
    assert_eq!(gpu.queue_families.index(&QueueFamilyType::Main), Some(0));
    assert_eq!(gpu.queue_families.index(&QueueFamilyType::Compute), Some(1));
    assert_eq!(gpu.queue_families.index(&QueueFamilyType::Transfer), Some(2));
}

#[test]
fn priority_check_runs_before_the_other_filters() {
    // A discrete contender is already selected; an unsuitable integrated
    // candidate afterwards is skipped at the priority check, so its
    // unclassifiable family never aborts the scan.
    let mut bad = candidate(DeviceType::Integrated);
    bad.families = vec![QueueFamilyCapability {
        index: 0,
        flags: QueueFlags { graphics: true, compute: false, transfer: false, sparse_binding: false },
        surface_support: Some(true),
    }];
    let candidates = vec![candidate(DeviceType::Discrete), bad];
    let gpu = GPU::get(&candidates, &swapchain_name()).unwrap();
    assert_eq!(gpu.device_index, 0);
}

#[test]
fn has_priority_matches_the_documented_order() {
    assert!(GPU::has_priority(DeviceType::Other, DeviceType::Virtual));
    assert!(GPU::has_priority(DeviceType::Integrated, DeviceType::Discrete));
    assert!(GPU::has_priority(DeviceType::Virtual, DeviceType::Discrete));
    assert!(GPU::has_priority(DeviceType::Virtual, DeviceType::Integrated));
    assert!(!GPU::has_priority(DeviceType::Discrete, DeviceType::Virtual));
    assert!(!GPU::has_priority(DeviceType::Discrete, DeviceType::Discrete));
    assert!(!GPU::has_priority(DeviceType::Integrated, DeviceType::Virtual));
}

#[test]
fn portability_extension_is_appended_only_when_advertised() {
    let base = vec![b"VK_KHR_swapchain".to_vec()];
    let supported = vec![
        b"VK_KHR_swapchain".to_vec(),
        b"VK_KHR_portability_subset".to_vec(),
    ];
    let r = device_extensions(base.clone(), &supported, b"VK_KHR_portability_subset".to_vec());
    assert_eq!(
        r,
        vec![
            b"VK_KHR_swapchain".to_vec(),
            b"VK_KHR_portability_subset".to_vec(),
        ]
    );

    let without = vec![b"VK_KHR_swapchain".to_vec()];
    let r = device_extensions(base.clone(), &without, b"VK_KHR_portability_subset".to_vec());
    assert_eq!(r, base);
}
