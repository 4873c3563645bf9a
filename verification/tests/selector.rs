use vk_bootstrap::router::LogLevel;
use vk_bootstrap::device::{
    check_physical_device, choose_physical_device, selected_notice, DeviceInfo, QueueFamilyIndices,
    SuitabilityError,
};

fn device(handle: u64, name: &str, queue_families: &[u32]) -> DeviceInfo {
    DeviceInfo { handle, name: name.to_string(), queue_families: queue_families.to_vec() }
}

fn with_graphics(flags: &[bool]) -> Vec<DeviceInfo> {
    flags
        .iter()
        .enumerate()
        .map(|(i, graphics)| {
            let families: Vec<u32> = if *graphics { vec![2, 1 | 2 | 4] } else { vec![2, 4] };
            device(100 + i as u64, &format!("gpu{}", i), &families)
        })
        .collect()
}

#[test]
fn graphics_family_is_the_lowest_match() {
    let found = QueueFamilyIndices::get(&vec![2, 4, 1 | 2, 1]).unwrap();
    assert_eq!(found.graphics, 2);
    assert_eq!(QueueFamilyIndices::get(&vec![1]).unwrap().graphics, 0);
    assert_eq!(QueueFamilyIndices::get(&vec![0xFFFF_FFFF]).unwrap().graphics, 0);
}

#[test]
fn device_without_graphics_family_is_refused() {
    let error = QueueFamilyIndices::get(&vec![2, 4, 8]).unwrap_err();
    assert_eq!(error.0, "required queue families");
    assert!(QueueFamilyIndices::get(&vec![]).is_err());
    assert!(QueueFamilyIndices::get(&vec![0x100, 0xFFFF_FFFE]).is_err());
}

#[test]
fn suitability_error_has_its_text() {
    assert_eq!(SuitabilityError("a queue").message(), "Missing a queue.");
    let error = QueueFamilyIndices::get(&vec![]).unwrap_err();
    assert_eq!(error.message(), "Missing required queue families.");
}

#[test]
fn check_accepts_exactly_the_devices_with_graphics() {
    assert!(check_physical_device(&device(1, "a", &[4, 1])).is_ok());
    let error = check_physical_device(&device(1, "a", &[4, 2])).unwrap_err();
    assert_eq!(error.0, "required queue families");
    assert_eq!(error.message(), "Missing required queue families.");
}

#[test]
fn second_of_three_devices_is_selected() {
    let devices = with_graphics(&[false, true, true]);
    let selection = choose_physical_device(&devices);
    assert_eq!(selection.chosen, Some(1));
    assert_eq!(selection.rejections.len(), 1);
    assert_eq!(selection.rejections[0].index, 0);
    assert_eq!(selection.rejections[0].name, "gpu0");
    assert_eq!(selection.rejections[0].reason.0, "required queue families");
    let warning = selection.rejections[0].warning();
    assert_eq!(warning.level, LogLevel::Warn);
    assert_eq!(
        warning.text,
        "Skipping physical device (gpu0): Missing required queue families."
    );
    let notice = selected_notice(&devices[1]);
    assert_eq!(notice.level, LogLevel::Info);
    assert_eq!(notice.text, "Selected physical device (gpu1)");
}

#[test]
fn lowest_suitable_device_is_selected() {
    let devices = with_graphics(&[false, false, false, true, false, true]);
    let selection = choose_physical_device(&devices);
    assert_eq!(selection.chosen, Some(3));
    let rejected: Vec<usize> = selection.rejections.iter().map(|r| r.index).collect();
    assert_eq!(rejected, vec![0, 1, 2]);
}

#[test]
fn first_device_is_selected_without_rejections() {
    let selection = choose_physical_device(&with_graphics(&[true, false]));
    assert_eq!(selection.chosen, Some(0));
    assert!(selection.rejections.is_empty());
}

#[test]
fn no_suitable_device_rejects_all() {
    let selection = choose_physical_device(&with_graphics(&[false, false, false]));
    assert_eq!(selection.chosen, None);
    let rejected: Vec<usize> = selection.rejections.iter().map(|r| r.index).collect();
    assert_eq!(rejected, vec![0, 1, 2]);
}

#[test]
fn no_device_at_all_selects_none() {
    let selection = choose_physical_device(&Vec::new());
    assert_eq!(selection.chosen, None);
    assert!(selection.rejections.is_empty());
}
