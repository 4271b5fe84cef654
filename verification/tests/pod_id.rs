use containerd_shim_wasm::runtime_spec::{pod_id, RuntimeSpec};

#[test]
fn test_get_pod_id() {
    let spec = RuntimeSpec::new("rootfs".to_string(), "/".to_string()).with_annotation(
        "io.kubernetes.cri.sandbox-id".to_string(),
        "test-pod-id".to_string(),
    );

    assert_eq!(pod_id(&spec), Some("test-pod-id".to_string()));
}

#[test]
fn test_get_pod_id_no_annotation() {
    let spec = RuntimeSpec::new("rootfs".to_string(), "/".to_string());

    assert_eq!(pod_id(&spec), None);
}

#[test]
fn test_get_pod_id_other_keys_only() {
    let spec = RuntimeSpec::new("rootfs".to_string(), "/".to_string())
        .with_annotation("io.kubernetes.cri.container-name".to_string(), "app".to_string());

    assert_eq!(pod_id(&spec), None);
}
