use containerd_shim_wasm::cache::{LoaderClient, ModuleLoaderCache, RetrievalError};

fn client(name: &str) -> LoaderClient {
    LoaderClient {
        containerd_address: "/run/containerd/containerd.sock".to_string(),
        namespace: "default".to_string(),
        engine_name: name.to_string(),
        supported_layer_types: vec!["application/vnd.wasm.content.layer.v1+wasm".to_string()],
        has_precompiler: false,
    }
}

#[test]
fn test_failed_init_is_not_cached_and_retry_succeeds() {
    let mut cache = ModuleLoaderCache::new();
    assert!(cache.get().is_none());

    assert!(cache.complete_init(Err(RetrievalError)).is_err());
    assert!(cache.get().is_none(), "a failed attempt must leave the slot empty");

    assert!(cache.complete_init(Err(RetrievalError)).is_err());
    assert!(cache.get().is_none());

    let r = cache.complete_init(Ok(client("wasmtime")));
    assert_eq!(r.expect("retry must succeed").engine_name, "wasmtime");
    assert_eq!(cache.get().expect("slot must be filled").engine_name, "wasmtime");
}

#[test]
fn test_first_stored_client_is_kept() {
    let mut cache = ModuleLoaderCache::new();
    assert!(cache.complete_init(Ok(client("first"))).is_ok());

    let r = cache.complete_init(Ok(client("second")));
    assert_eq!(r.expect("cached client is returned").engine_name, "first");
    assert_eq!(cache.get().expect("slot stays filled").engine_name, "first");

    let r = cache.complete_init(Err(RetrievalError));
    assert_eq!(
        r.expect("a failing attempt against a filled slot still gets the cached client")
            .engine_name,
        "first"
    );
}
