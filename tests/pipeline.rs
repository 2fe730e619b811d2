use cargo_flutter_pack::{
    plan, resolve_version, run_paths, should_sign, Command, EngineDescriptor, EngineStore, Error, Flags,
    NativeStep, Profile,
};

fn no_flags() -> Flags {
    Flags { no_flutter: false, no_bundle: false, no_attach: false, no_aot: false, sign: false, no_sign: false }
}

#[test]
fn signing_decision() {
    assert!(!should_sign(Profile::Debug, false, false));
    assert!(should_sign(Profile::Debug, true, false));
    assert!(should_sign(Profile::Release, false, false));
    assert!(!should_sign(Profile::Release, false, true));
}

#[test]
fn engine_resolved_twice_is_fetched_once() {
    let mut store = EngineStore::new();
    let desc = || EngineDescriptor::new("abc123".to_string(), "x86_64-unknown-linux-gnu".to_string(), Profile::Release);
    let first = store.resolve("/home/u/.cache", desc()).unwrap();
    let second = store.resolve("/home/u/.cache", desc()).unwrap();
    assert!(first.fetch);
    assert!(!second.fetch);
    assert_eq!(first.path, second.path);
    assert_eq!(first.path, "/home/u/.cache/flutter-engine/abc123/x86_64-unknown-linux-gnu/release/libflutter_engine.so");
    assert_eq!(first.staging, format!("{}.partial", first.path));
    assert!(store.contains(&desc()));
}

#[test]
fn engine_keys_differ_by_profile() {
    let mut store = EngineStore::new();
    let r = EngineDescriptor::new("v".to_string(), "x86_64-apple-darwin".to_string(), Profile::Release);
    let d = EngineDescriptor::new("v".to_string(), "x86_64-apple-darwin".to_string(), Profile::Debug);
    assert!(store.resolve("/c", r).unwrap().fetch);
    let debug = store.resolve("/c", d).unwrap();
    assert!(debug.fetch);
    assert_eq!(debug.path, "/c/flutter-engine/v/x86_64-apple-darwin/debug_unopt/FlutterEmbedder.framework");
}

#[test]
fn engine_paths_by_platform() {
    let w = EngineDescriptor::new("v".to_string(), "x86_64-pc-windows-msvc".to_string(), Profile::Debug);
    assert_eq!(w.engine_path("/c").unwrap(), "/c/flutter-engine/v/x86_64-pc-windows-msvc/debug_unopt/flutter_engine.dll");
    assert_eq!(w.engine_dir("/c"), "/c/flutter-engine/v/x86_64-pc-windows-msvc/debug_unopt");
    let a = EngineDescriptor::new("v".to_string(), "aarch64-linux-android".to_string(), Profile::Release);
    assert_eq!(a.engine_path("/c").unwrap(), "/c/flutter-engine/v/aarch64-linux-android/release/libflutter_engine.so");
    let mut store = EngineStore::new();
    let u = EngineDescriptor::new("v".to_string(), "wasm32-unknown-unknown".to_string(), Profile::Debug);
    assert_eq!(store.resolve("/c", u).err().map(|e| e), Some(Error::UnsupportedTarget));
}

#[test]
fn version_precedence() {
    let s = |v: &str| Some(v.to_string());
    assert_eq!(resolve_version(s("cfg"), s("env"), s("latest")), Ok("cfg".to_string()));
    assert_eq!(resolve_version(None, s("env"), s("latest")), Ok("env".to_string()));
    assert_eq!(resolve_version(None, None, s("latest")), Ok("latest".to_string()));
    assert_eq!(resolve_version(None, None, None), Err(Error::EngineVersionUnavailable));
}

#[test]
fn unconfigured_run_builds_only() {
    for command in [Command::Build, Command::Run, Command::Other] {
        for profile in [Profile::Debug, Profile::Release] {
            let p = plan(false, command, profile, no_flags(), true);
            assert!(!p.bundle && !p.aot && !p.attach && !p.package);
            assert_eq!(p.native, NativeStep::Build);
        }
    }
}

#[test]
fn configured_release_build_with_format() {
    let p = plan(true, Command::Build, Profile::Release, no_flags(), true);
    assert!(p.bundle && p.aot && p.package && p.sign && !p.attach);
    assert_eq!(p.native, NativeStep::Build);
    let no_format = plan(true, Command::Build, Profile::Release, no_flags(), false);
    assert!(!no_format.package);
}

#[test]
fn configured_run_attaches_unless_told_not_to() {
    let p = plan(true, Command::Run, Profile::Debug, no_flags(), false);
    assert!(p.bundle && !p.aot && p.attach && !p.package && !p.sign);
    assert_eq!(p.native, NativeStep::Run);
    let mut f = no_flags();
    f.no_flutter = true;
    let q = plan(true, Command::Run, Profile::Release, f, false);
    assert!(!q.bundle && !q.aot && !q.attach);
    let mut g = no_flags();
    g.no_bundle = true;
    g.no_aot = true;
    let r = plan(true, Command::Other, Profile::Release, g, true);
    assert!(!r.bundle && !r.aot && !r.package);
    assert_eq!(r.native, NativeStep::Build);
}

#[test]
fn run_paths_under_build_dir() {
    let r = run_paths("/t/debug");
    assert_eq!(r.aot_snapshot, "/t/debug/app.so");
    assert_eq!(r.asset_dir, "/t/debug/flutter_assets");
}

#[test]
fn error_messages_are_not_empty() {
    for e in [Error::NotCalledWithCargo, Error::FormatNotSupported, Error::EngineVersionUnavailable, Error::PackagingToolFailed] {
        assert!(!e.message().is_empty());
    }
    assert_eq!(Error::FormatNotSupported.message(), "packaging format not supported");
    assert_eq!(Error::UnsupportedTarget.message(), "no flutter engine exists for this target");
}

#[test]
fn engine_download_url() {
    let d = EngineDescriptor::new("abc".to_string(), "x86_64-unknown-linux-gnu".to_string(), Profile::Debug);
    assert_eq!(
        d.download_url(),
        "https://github.com/flutter-rs/engine-builds/releases/download/f-abc/x86_64-unknown-linux-gnu-debug_unopt.zip"
    );
}
