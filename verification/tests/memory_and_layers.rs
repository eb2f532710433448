use vulkan_renderer::error::RendererError;
use vulkan_renderer::vertex_buffer::find_memory_type;
use vulkan_renderer::vulkan_debug::check_validation_layers;

const DEVICE_LOCAL: u32 = 0b0001;
const HOST_VISIBLE: u32 = 0b0010;
const HOST_COHERENT: u32 = 0b0100;

#[test]
fn memory_type_must_pass_the_filter_and_have_every_flag() {
    let types = vec![DEVICE_LOCAL, HOST_VISIBLE, HOST_VISIBLE | HOST_COHERENT, HOST_VISIBLE | HOST_COHERENT];
    assert_eq!(find_memory_type(0b1111, &types, HOST_VISIBLE | HOST_COHERENT), Some(2));
    assert_eq!(find_memory_type(0b1011, &types, HOST_VISIBLE | HOST_COHERENT), Some(3));
    assert_eq!(find_memory_type(0b1111, &types, DEVICE_LOCAL), Some(0));
    assert_eq!(find_memory_type(0b1110, &types, DEVICE_LOCAL), None);
}

#[test]
fn memory_type_uses_the_highest_filter_bit() {
    let mut types = vec![0u32; 32];
    types[31] = DEVICE_LOCAL;
    assert_eq!(find_memory_type(1 << 31, &types, DEVICE_LOCAL), Some(31));
    assert_eq!(find_memory_type(u32::MAX, &vec![], 0), None);
}

#[test]
fn installed_layers_pass() {
    let installed = vec![Some("VK_LAYER_other".to_string()), None, Some("VK_LAYER_KHRONOS_validation".to_string())];
    assert!(check_validation_layers(&installed, &vec!["VK_LAYER_KHRONOS_validation".to_string()]).is_ok());
    assert!(check_validation_layers(&vec![], &vec![]).is_ok());
}

#[test]
fn missing_layers_are_named_in_order() {
    let installed = vec![Some("B".to_string()), None];
    let needed = vec!["A".to_string(), "B".to_string(), "C".to_string()];
    match check_validation_layers(&installed, &needed) {
        Err(RendererError::UnsupportedLayers(missing)) => {
            assert_eq!(missing, vec!["A".to_string(), "C".to_string()])
        }
        other => panic!("unexpected {:?}", other),
    }
}
