use compute_demos::queue::{first_graphics_family, fit_queue_family, QueueFamilyInfo};
use vulkano::instance::{Instance, InstanceExtensions, PhysicalDevice};

fn family(id: u32, graphics: bool) -> QueueFamilyInfo {
    QueueFamilyInfo { id, graphics }
}

#[test]
fn no_family_gives_none() {
    assert_eq!(first_graphics_family(&Vec::new()), None);
}

#[test]
fn no_graphics_family_gives_none() {
    let families = vec![family(0, false), family(1, false), family(2, false)];
    assert_eq!(first_graphics_family(&families), None);
}

#[test]
fn only_family_with_graphics_is_chosen() {
    assert_eq!(first_graphics_family(&vec![family(0, true)]), Some(0));
}

#[test]
fn first_of_several_graphics_families_is_chosen() {
    let families = vec![family(0, false), family(1, true), family(2, true), family(3, false)];
    assert_eq!(first_graphics_family(&families), Some(1));
}

#[test]
fn last_family_is_found() {
    let families = vec![family(0, false), family(1, false), family(2, true)];
    assert_eq!(first_graphics_family(&families), Some(2));
}

#[test]
fn chosen_identifier_is_the_family_s_own() {
    let families = vec![family(40, false), family(7, true), family(3, true)];
    assert_eq!(first_graphics_family(&families), Some(7));
}

#[test]
fn device_choice_agrees_with_the_device_s_own_listing() {
    // Without a Vulkan loader on the machine there is no device to ask.
    let instance = match Instance::new(None, &InstanceExtensions::none(), None) {
        Ok(instance) => instance,
        Err(_) => return,
    };
    for device in PhysicalDevice::enumerate(&instance) {
        let expected = device.queue_families().find(|q| q.supports_graphics()).map(|q| q.id());
        assert_eq!(fit_queue_family(&device), expected);
    }
}
