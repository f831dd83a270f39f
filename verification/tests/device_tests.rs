use ketch::device::{create_logical_device, rank_devices, DeviceCapabilities, PhysicalDeviceType};
use ketch::error::RendererCreationError;

#[test]
fn empty_enumeration_has_no_physical_device() {
    assert_eq!(rank_devices(&vec![]), Err(RendererCreationError::NoPhysicalDeviceError));
}

#[test]
fn discrete_gpu_wins_among_one_of_each_type() {
    let devices = vec![
        PhysicalDeviceType::Other,
        PhysicalDeviceType::Cpu,
        PhysicalDeviceType::DiscreteGpu,
        PhysicalDeviceType::IntegratedGpu,
        PhysicalDeviceType::VirtualGpu,
    ];
    assert_eq!(rank_devices(&devices), Ok(2));
}

#[test]
fn discrete_gpu_wins_wherever_it_is_enumerated() {
    let others = [
        PhysicalDeviceType::Other,
        PhysicalDeviceType::Cpu,
        PhysicalDeviceType::IntegratedGpu,
        PhysicalDeviceType::VirtualGpu,
    ];
    for position in 0..5 {
        let mut devices = others.to_vec();
        devices.insert(position, PhysicalDeviceType::DiscreteGpu);
        assert_eq!(rank_devices(&devices), Ok(position));
    }
}

#[test]
fn scores_follow_the_ranking() {
    assert_eq!(PhysicalDeviceType::DiscreteGpu.score(), 4);
    assert_eq!(PhysicalDeviceType::VirtualGpu.score(), 3);
    assert_eq!(PhysicalDeviceType::IntegratedGpu.score(), 2);
    assert_eq!(PhysicalDeviceType::Cpu.score(), 1);
    assert_eq!(PhysicalDeviceType::Other.score(), 0);
}

#[test]
fn virtual_gpu_beats_integrated_gpu_and_cpu() {
    let devices = vec![
        PhysicalDeviceType::Cpu,
        PhysicalDeviceType::IntegratedGpu,
        PhysicalDeviceType::VirtualGpu,
        PhysicalDeviceType::Other,
    ];
    assert_eq!(rank_devices(&devices), Ok(2));
}

#[test]
fn single_device_is_selected() {
    assert_eq!(rank_devices(&vec![PhysicalDeviceType::Other]), Ok(0));
}

#[test]
fn first_of_equally_ranked_devices_is_selected() {
    let devices = vec![
        PhysicalDeviceType::IntegratedGpu,
        PhysicalDeviceType::Cpu,
        PhysicalDeviceType::IntegratedGpu,
        PhysicalDeviceType::Other,
    ];
    assert_eq!(rank_devices(&devices), Ok(0));
    let devices = vec![
        PhysicalDeviceType::Cpu,
        PhysicalDeviceType::DiscreteGpu,
        PhysicalDeviceType::DiscreteGpu,
    ];
    assert_eq!(rank_devices(&devices), Ok(1));
}

#[test]
fn logical_device_requests_depth_clamp_and_swapchain() {
    let supported = DeviceCapabilities { depth_clamp: true, khr_swapchain: true };
    assert_eq!(
        create_logical_device(supported),
        Ok(DeviceCapabilities { depth_clamp: true, khr_swapchain: true })
    );
}

#[test]
fn logical_device_is_refused_without_depth_clamp() {
    let supported = DeviceCapabilities { depth_clamp: false, khr_swapchain: true };
    assert_eq!(create_logical_device(supported), Err(RendererCreationError::DeviceCreationError));
}

#[test]
fn logical_device_is_refused_without_swapchain_support() {
    let supported = DeviceCapabilities { depth_clamp: true, khr_swapchain: false };
    assert_eq!(create_logical_device(supported), Err(RendererCreationError::DeviceCreationError));
}
