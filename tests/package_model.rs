use cargo_flutter_pack::{assemble_package, file_name, path_join, str_contains, str_equal, Package, Profile};

#[test]
fn libs_and_assets_keep_call_order() {
    let mut p = Package::new("demo");
    p.add_lib("/a/liba.so".to_string());
    p.add_asset("/x/assets1".to_string());
    p.add_lib("/b/libb.so".to_string());
    p.add_asset("/x/assets2".to_string());
    p.add_lib("/a/liba.so".to_string());
    assert_eq!(p.lib_count(), 3);
    assert_eq!(p.lib(0), "/a/liba.so");
    assert_eq!(p.lib(1), "/b/libb.so");
    assert_eq!(p.lib(2), "/a/liba.so");
    assert_eq!(p.asset_count(), 2);
    assert_eq!(p.asset(0), "/x/assets1");
    assert_eq!(p.asset(1), "/x/assets2");
    assert_eq!(p.name(), "demo");
    assert!(p.bin().is_none());
}

#[test]
fn same_calls_give_same_package() {
    let build = || {
        let mut p = Package::new("demo");
        p.add_lib("l1".to_string());
        p.add_asset("a1".to_string());
        p.add_lib("l2".to_string());
        p
    };
    let p1 = build();
    let p2 = build();
    assert_eq!(p1.lib_count(), p2.lib_count());
    for i in 0..p1.lib_count() {
        assert_eq!(p1.lib(i), p2.lib(i));
    }
    assert_eq!(p1.asset(0), p2.asset(0));
}

#[test]
fn last_binary_wins() {
    let mut p = Package::new("demo");
    p.add_bin("/build/a".to_string());
    p.add_bin("/build/b".to_string());
    assert_eq!(p.bin().map(|s| s.as_str()), Some("/build/b"));
}

#[test]
fn release_package_has_engine_then_snapshot() {
    let p = assemble_package("app", "/target/release", "/cache/libflutter_engine.so", Profile::Release);
    assert_eq!(p.bin().map(|s| s.as_str()), Some("/target/release/app"));
    assert_eq!(p.lib_count(), 2);
    assert_eq!(p.lib(0), "/cache/libflutter_engine.so");
    assert_eq!(p.lib(1), "/target/release/app.so");
    assert_eq!(p.asset_count(), 1);
    assert_eq!(p.asset(0), "/target/release/flutter_assets");
}

#[test]
fn debug_package_has_engine_only() {
    let p = assemble_package("app", "/target/debug/", "/cache/libflutter_engine.so", Profile::Debug);
    assert_eq!(p.bin().map(|s| s.as_str()), Some("/target/debug/app"));
    assert_eq!(p.lib_count(), 1);
    assert_eq!(p.lib(0), "/cache/libflutter_engine.so");
    assert_eq!(p.asset(0), "/target/debug/flutter_assets");
}

#[test]
fn text_helpers() {
    assert_eq!(path_join("/a", "b"), "/a/b");
    assert_eq!(path_join("/a/", "b"), "/a/b");
    assert_eq!(path_join("", "b"), "b");
    assert_eq!(file_name("/a/b/libc.so"), "libc.so");
    assert_eq!(file_name("plain"), "plain");
    assert_eq!(file_name("/a/dir/"), "dir");
    assert_eq!(file_name("/a/dir//"), "dir");
    assert_eq!(file_name("/"), "");
    assert!(str_contains("x86_64-unknown-linux-gnu", "linux"));
    assert!(!str_contains("x86_64-apple-darwin", "linux"));
    assert!(str_contains("abc", ""));
    assert!(!str_contains("ab", "abc"));
    assert!(str_equal("apk", "apk"));
    assert!(!str_equal("apk", "apks"));
}
