use pal::device::{
    check_device_extensions, device_type_rank, pick_physical_device, same_name, DeviceInfo,
    QueueFamily, DEVICE_TYPE_CPU, DEVICE_TYPE_DISCRETE_GPU, DEVICE_TYPE_INTEGRATED_GPU,
    DEVICE_TYPE_OTHER, DEVICE_TYPE_VIRTUAL_GPU, QUEUE_COMPUTE, QUEUE_GRAPHICS, QUEUE_TRANSFER,
};
use pal::surface::QueueFamilyIndices;

const ALL: u32 = QUEUE_GRAPHICS | QUEUE_COMPUTE | QUEUE_TRANSFER;

fn family(flags: u32, count: u32, present: bool) -> QueueFamily {
    QueueFamily { queue_flags: flags, queue_count: count, surface_support: Some(present) }
}

fn names(list: &[&str]) -> Vec<Vec<u8>> {
    list.iter().map(|n| n.as_bytes().to_vec()).collect()
}

fn device(ty: i32, families: Vec<QueueFamily>) -> DeviceInfo {
    DeviceInfo {
        device_type: ty,
        extensions: names(&["VK_KHR_swapchain", "VK_KHR_timeline_semaphore"]),
        format_count: Some(2),
        present_mode_count: Some(1),
        families,
    }
}

#[test]
fn kinds_of_devices_are_ranked() {
    assert_eq!(device_type_rank(DEVICE_TYPE_DISCRETE_GPU), 4);
    assert_eq!(device_type_rank(DEVICE_TYPE_INTEGRATED_GPU), 3);
    assert_eq!(device_type_rank(DEVICE_TYPE_CPU), 2);
    assert_eq!(device_type_rank(DEVICE_TYPE_VIRTUAL_GPU), 1);
    assert_eq!(device_type_rank(DEVICE_TYPE_OTHER), 0);
    assert_eq!(device_type_rank(77), 0);
}

#[test]
fn the_first_missing_extension_is_found() {
    let found = names(&["a", "bb", "ccc"]);
    assert_eq!(check_device_extensions(&found, &names(&["bb", "a"])), None);
    assert_eq!(check_device_extensions(&found, &names(&[])), None);
    assert_eq!(check_device_extensions(&found, &names(&["a", "b", "zz"])), Some(1));
    assert_eq!(check_device_extensions(&names(&[]), &names(&["a"])), Some(0));
    assert!(same_name(&b"abc".to_vec(), &b"abc".to_vec()));
    assert!(!same_name(&b"abc".to_vec(), &b"abd".to_vec()));
    assert!(!same_name(&b"abc".to_vec(), &b"ab".to_vec()));
}

#[test]
fn a_single_family_with_enough_queues_serves_every_queue() {
    let found = QueueFamilyIndices::find(&vec![family(ALL, 4, true)]).unwrap();
    assert_eq!((found.main, found.present, found.transfer, found.compute), (0, 0, 0, 0));
    assert_eq!(found.unique, vec![0]);
    assert_eq!(found.queue_slots(), (0, 1, 2, 3));
    assert_eq!(found.queue_count(0), 4);
    assert_eq!(found.queue_count(1), 0);
}

#[test]
fn a_single_family_without_enough_queues_serves_no_device() {
    assert!(QueueFamilyIndices::find(&vec![family(ALL, 3, true)]).is_none());
    assert!(QueueFamilyIndices::find(&vec![family(ALL, 1, true)]).is_none());
    assert!(QueueFamilyIndices::find(&vec![family(QUEUE_GRAPHICS, 8, true)]).is_none());
    assert!(QueueFamilyIndices::find(&Vec::new()).is_none());
}

#[test]
fn dedicated_families_are_preferred() {
    let families = vec![
        family(QUEUE_TRANSFER, 1, false),
        family(ALL, 16, true),
        family(QUEUE_COMPUTE | QUEUE_TRANSFER, 2, false),
        family(QUEUE_COMPUTE, 1, true),
    ];
    let found = QueueFamilyIndices::find(&families).unwrap();
    assert_eq!(found.main, 1);
    // The first family other than the main one that can present.
    assert_eq!(found.present, 3);
    assert_eq!(found.transfer, 0);
    assert_eq!(found.compute, 2);
    assert_eq!(found.unique, vec![1, 3, 0, 2]);
    assert_eq!(found.queue_slots(), (0, 0, 0, 0));
}

#[test]
fn a_family_is_shared_when_there_is_no_other() {
    let families = vec![family(ALL, 2, true), family(QUEUE_TRANSFER | QUEUE_COMPUTE, 2, false)];
    let found = QueueFamilyIndices::find(&families).unwrap();
    assert_eq!((found.main, found.present, found.transfer, found.compute), (0, 0, 1, 1));
    assert_eq!(found.unique, vec![0, 1]);
    // Main, transfer, present, compute: present is second in family 0, compute second in family 1.
    assert_eq!(found.queue_slots(), (0, 0, 1, 1));
    assert_eq!(found.queue_count(0), 2);
    assert_eq!(found.queue_count(1), 2);
}

#[test]
fn a_failed_surface_query_serves_no_device() {
    let families = vec![
        family(ALL, 4, false),
        QueueFamily { queue_flags: QUEUE_TRANSFER, queue_count: 1, surface_support: None },
        family(QUEUE_COMPUTE, 1, true),
    ];
    assert!(QueueFamilyIndices::find(&families).is_none());
    // The query is not made once a family was found.
    let families = vec![
        family(ALL, 4, false),
        family(QUEUE_COMPUTE, 1, true),
        QueueFamily { queue_flags: QUEUE_TRANSFER, queue_count: 1, surface_support: None },
    ];
    assert_eq!(QueueFamilyIndices::find(&families).unwrap().present, 1);
}

#[test]
fn the_last_of_the_best_devices_is_picked() {
    let required = names(&["VK_KHR_swapchain", "VK_KHR_timeline_semaphore"]);
    let good = || vec![family(ALL, 4, true)];
    let devices = vec![
        device(DEVICE_TYPE_INTEGRATED_GPU, good()),
        device(DEVICE_TYPE_DISCRETE_GPU, good()),
        device(DEVICE_TYPE_CPU, good()),
        device(DEVICE_TYPE_DISCRETE_GPU, good()),
        device(DEVICE_TYPE_VIRTUAL_GPU, good()),
    ];
    assert_eq!(pick_physical_device(&devices, &required), Some(3));
    assert_eq!(pick_physical_device(&Vec::new(), &required), None);
    // A device of the least preferred kind is still picked when it fits.
    assert_eq!(pick_physical_device(&vec![device(DEVICE_TYPE_OTHER, good())], &required), Some(0));
}

#[test]
fn devices_that_do_not_fit_are_passed_over() {
    let required = names(&["VK_KHR_swapchain"]);
    let good = || vec![family(ALL, 4, true)];
    let mut no_extension = device(DEVICE_TYPE_DISCRETE_GPU, good());
    no_extension.extensions = names(&["VK_KHR_other"]);
    let mut no_formats = device(DEVICE_TYPE_DISCRETE_GPU, good());
    no_formats.format_count = Some(0);
    let mut failed_modes = device(DEVICE_TYPE_DISCRETE_GPU, good());
    failed_modes.present_mode_count = None;
    let no_families = device(DEVICE_TYPE_DISCRETE_GPU, vec![family(QUEUE_TRANSFER, 1, true)]);
    let devices = vec![
        no_extension,
        device(DEVICE_TYPE_VIRTUAL_GPU, good()),
        no_formats,
        failed_modes,
        no_families,
    ];
    assert_eq!(pick_physical_device(&devices, &required), Some(1));
    assert_eq!(pick_physical_device(&devices[2..].iter().map(copy).collect(), &required), None);
}

fn copy(d: &DeviceInfo) -> DeviceInfo {
    DeviceInfo {
        device_type: d.device_type,
        extensions: d.extensions.clone(),
        format_count: d.format_count,
        present_mode_count: d.present_mode_count,
        families: d.families.clone(),
    }
}
