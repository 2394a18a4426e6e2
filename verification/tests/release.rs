use speechlab::release::{
    asset_slug, backends_from_release, classify_backend, installed_exe_result, is_engine_exe_name,
    parse_engine_version, resolve_engine_exe, ReleaseAsset,
};

#[test]
fn asset_slugs() {
    assert_eq!(asset_slug("crispasr-windows-x86_64-cuda-non-cuda.zip"), Some("cuda-non-cuda".to_string()));
    assert_eq!(asset_slug("CrispASR-Windows-x86_64-CPU.zip"), Some("cpu".to_string()));
    assert_eq!(asset_slug("crispasr-vulkan-windows.zip"), Some("vulkan-windows".to_string()));
    assert_eq!(asset_slug("crispasr-linux-x86_64-cpu.tar.gz"), None);
    assert_eq!(asset_slug("crispasr-windows-x86_64-.zip"), None);
}

#[test]
fn backend_labels() {
    assert_eq!(
        classify_backend("crispasr-windows-x86_64-cuda-non-cuda.zip"),
        Some(("cuda-non-cuda".to_string(), "NVIDIA CUDA (GPU) [non-cuda]".to_string()))
    );
    assert_eq!(
        classify_backend("crispasr-windows-x86_64-cuda.zip"),
        Some(("cuda".to_string(), "NVIDIA CUDA (GPU)".to_string()))
    );
    assert_eq!(
        classify_backend("crispasr-windows-x86_64-cpu-legacy.zip"),
        Some(("cpu-legacy".to_string(), "CPU (legacy SSE2)".to_string()))
    );
    assert_eq!(
        classify_backend("crispasr-windows-x86_64-hip-gfx1100.zip"),
        Some(("hip-gfx1100".to_string(), "AMD ROCm (GPU) [gfx1100]".to_string()))
    );
    assert_eq!(
        classify_backend("crispasr-windows-x86_64-cpu-avx512.zip"),
        Some(("cpu-avx512".to_string(), "CPU (AVX2) [avx512]".to_string()))
    );
    assert_eq!(classify_backend("crispasr-windows-x86_64-opencl.zip"), None);
    assert_eq!(classify_backend("models.json"), None);
}

fn asset(name: &str) -> ReleaseAsset {
    ReleaseAsset { name: name.to_string(), browser_download_url: format!("https://dl/{name}") }
}

#[test]
fn release_lists_windows_builds_in_order() {
    let r = backends_from_release(
        "v1.2",
        vec![asset("crispasr-windows-x86_64-vulkan.zip"), asset("notes.txt"), asset("crispasr-windows-x86_64-cpu.zip")],
    )
    .unwrap();
    assert_eq!(r.len(), 2);
    assert_eq!(r[0].id, "vulkan");
    assert_eq!(r[0].label, "Vulkan (GPU)");
    assert_eq!(r[0].url, "https://dl/crispasr-windows-x86_64-vulkan.zip");
    assert_eq!(r[1].id, "cpu");
    assert_eq!(r[1].tag, "v1.2");
    let e = backends_from_release("v1", vec![asset("notes.txt")]).err().unwrap();
    assert_eq!(e, "в релизе не найдено Windows-бинарей движка");
}

#[test]
fn engine_paths() {
    let direct = resolve_engine_exe("", "cuda", "/app/crispasr", false, None);
    assert!(direct.starts_with("/app/crispasr"));
    assert!(direct.ends_with("crispasr.exe"));
    assert!(direct.contains("cuda"));
    assert_eq!(resolve_engine_exe("/e", "cpu", "/d", false, Some("/e/cpu/sub/crispasr.exe".to_string())), "/e/cpu/sub/crispasr.exe");
    assert_eq!(resolve_engine_exe("/e", "cpu", "/d", true, Some("/x".to_string())), direct_of("/e", "cpu"));
    assert!(is_engine_exe_name("crispasr.exe"));
    assert!(!is_engine_exe_name("crispasr.zip"));
    assert_eq!(parse_engine_version("  v0.9.3\n"), "v0.9.3");
    assert_eq!(installed_exe_result("/t", None), Err("после распаковки не найден crispasr.exe в /t".to_string()));
}

fn direct_of(dir: &str, b: &str) -> String {
    std::path::Path::new(dir).join(b).join("crispasr.exe").to_string_lossy().into_owned()
}
