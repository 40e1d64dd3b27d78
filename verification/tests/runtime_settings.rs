use fractalwonder_ui::runtime_settings::{
    get_cpu_threads, get_cpu_threads_override, get_gpu_enabled, get_gpu_enabled_override, set_cpu_threads,
    set_gpu_enabled, RendererType, RuntimeSettings,
};

#[test]
fn cpu_threads_fall_back_to_config_then_zero() {
    let mut s = RuntimeSettings::new();
    assert_eq!(get_cpu_threads(&mut s, None, Some(-1)), -1);
    assert_eq!(get_cpu_threads(&mut s, None, None), 0);
    assert_eq!(get_cpu_threads_override(&mut s, None), None);
}

#[test]
fn stored_value_is_loaded_once() {
    let mut s = RuntimeSettings::new();
    assert!(s.cpu_threads_needs_load());
    assert_eq!(get_cpu_threads_override(&mut s, Some(4)), Some(4));
    assert!(!s.cpu_threads_needs_load());
    assert_eq!(get_cpu_threads(&mut s, Some(9), Some(2)), 4);
}

#[test]
fn set_then_get_returns_set_value() {
    let mut s = RuntimeSettings::new();
    set_cpu_threads(&mut s, 6);
    assert_eq!(get_cpu_threads(&mut s, Some(3), Some(1)), 6);
    assert_eq!(get_cpu_threads_override(&mut s, Some(3)), Some(6));
    set_gpu_enabled(&mut s, false);
    assert!(!get_gpu_enabled(&mut s, Some(true), Some(true)));
    assert_eq!(get_gpu_enabled_override(&mut s, Some(true)), Some(false));
}

#[test]
fn gpu_defaults_to_enabled() {
    let mut s = RuntimeSettings::new();
    assert!(get_gpu_enabled(&mut s, None, None));
    assert!(!get_gpu_enabled(&mut s, None, Some(false)));
    assert!(s.gpu_enabled_needs_load());
    assert_eq!(get_gpu_enabled_override(&mut s, Some(false)), Some(false));
    assert!(!get_gpu_enabled(&mut s, None, Some(true)));
}

#[test]
fn renderer_type_default_is_simple() {
    assert_eq!(RendererType::default(), RendererType::Simple);
}
