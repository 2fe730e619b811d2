use cargo_flutter_pack::{
    abi_of_triple, assemble_package, select, Abi, AppImage, AppImageConfig, Apk, Error, Format, Package,
    Profile, Signing,
};

#[test]
fn registered_formats_are_selected() {
    assert_eq!(select("appimage"), Ok(Format::AppImage));
    assert_eq!(select("apk"), Ok(Format::Apk));
    assert_eq!(Format::AppImage.name(), "appimage");
    assert_eq!(Format::Apk.name(), "apk");
}

#[test]
fn unregistered_formats_are_refused() {
    for name in ["zzz", "", "APK", "appimage ", "deb", "app"] {
        assert_eq!(select(name), Err(Error::FormatNotSupported));
    }
}

#[test]
fn abi_follows_the_triple() {
    assert_eq!(abi_of_triple("armv7-linux-androideabi"), Some(Abi::ArmV7a));
    assert_eq!(abi_of_triple("aarch64-linux-android"), Some(Abi::Arm64V8a));
    assert_eq!(abi_of_triple("i686-linux-android"), Some(Abi::X86));
    assert_eq!(abi_of_triple("x86_64-linux-android"), Some(Abi::X86_64));
    assert_eq!(abi_of_triple("x86_64-unknown-linux-gnu"), None);
}

fn android_package() -> Package {
    let mut p = Package::new("demo");
    p.add_lib("/t/libdemo.so".to_string());
    p.add_lib("/cache/libflutter_engine.so".to_string());
    p.add_asset("/t/flutter_assets".to_string());
    p.add_asset("/t/other_assets".to_string());
    p
}

fn triples(t: &[&str]) -> Vec<String> {
    t.iter().map(|s| s.to_string()).collect()
}

#[test]
fn apk_maps_every_library_to_its_abi() {
    let apk = Apk::new(vec![Abi::Arm64V8a]);
    let t = triples(&["aarch64-linux-android", "aarch64-linux-android"]);
    let job = apk.build(&android_package(), &t, true).unwrap();
    assert_eq!(job.assets_root, "/t/flutter_assets");
    assert!(job.sign);
    assert_eq!(job.libraries.len(), 2);
    assert_eq!(job.libraries[0].target, "demo");
    assert_eq!(job.libraries[0].abi, Abi::Arm64V8a);
    assert_eq!(job.libraries[0].path, "/t/libdemo.so");
    assert_eq!(job.libraries[0].filename, "libdemo.so");
    assert_eq!(job.libraries[1].abi, Abi::Arm64V8a);
    assert_eq!(job.libraries[1].filename, "libflutter_engine.so");
}

#[test]
fn apk_multi_abi_build_covers_every_declared_abi() {
    let apk = Apk::new(vec![Abi::ArmV7a, Abi::X86]);
    let mut p = Package::new("demo");
    p.add_lib("/t/armv7/libdemo.so".to_string());
    p.add_lib("/t/i686/libdemo.so".to_string());
    p.add_asset("/t/flutter_assets".to_string());
    let t = triples(&["armv7-linux-androideabi", "i686-linux-android"]);
    let job = apk.build(&p, &t, false).unwrap();
    assert_eq!(job.libraries[0].abi, Abi::ArmV7a);
    assert_eq!(job.libraries[0].path, "/t/armv7/libdemo.so");
    assert_eq!(job.libraries[1].abi, Abi::X86);
    assert_eq!(job.libraries[1].path, "/t/i686/libdemo.so");
    assert!(!job.sign);
}

#[test]
fn apk_declared_abi_without_library_is_refused() {
    let apk = Apk::new(vec![Abi::ArmV7a, Abi::X86]);
    let mut p = Package::new("demo");
    p.add_lib("/t/libdemo.so".to_string());
    p.add_asset("/t/flutter_assets".to_string());
    let t = triples(&["armv7-linux-androideabi"]);
    assert_eq!(apk.build(&p, &t, false).err(), Some(Error::PackagingConfigInvalid));
}

#[test]
fn apk_errors() {
    let apk = Apk::new(vec![Abi::ArmV7a]);
    let arm = triples(&["armv7-linux-androideabi"]);
    let mut no_assets = Package::new("demo");
    no_assets.add_lib("/t/libdemo.so".to_string());
    assert_eq!(apk.build(&no_assets, &arm, false).err(), Some(Error::PackagingConfigInvalid));
    let p = android_package();
    assert_eq!(apk.build(&p, &arm, false).err(), Some(Error::PackagingConfigInvalid));
    let host = triples(&["x86_64-unknown-linux-gnu", "armv7-linux-androideabi"]);
    assert_eq!(apk.build(&p, &host, false).err(), Some(Error::UnsupportedTarget));
    let undeclared = triples(&["aarch64-linux-android", "armv7-linux-androideabi"]);
    assert_eq!(apk.build(&p, &undeclared, false).err(), Some(Error::PackagingConfigInvalid));
    let none_declared = Apk::new(vec![]);
    let both_arm = triples(&["armv7-linux-androideabi", "armv7-linux-androideabi"]);
    assert_eq!(none_declared.build(&p, &both_arm, false).err(), Some(Error::PackagingConfigInvalid));
    assert!(apk.build(&p, &both_arm, false).is_ok());
}

#[test]
fn release_appimage_end_to_end() {
    let d = "/proj/target/release";
    let e = "/cache/flutter-engine/v1/x86_64-unknown-linux-gnu/release/libflutter_engine.so";
    let format = select("appimage").unwrap();
    assert_eq!(format, Format::AppImage);
    let p = assemble_package("app", d, e, Profile::Release);
    let job = AppImage::new(AppImageConfig::default()).build(d, &p, false).unwrap();
    let from: Vec<&str> = job.copies.iter().map(|c| c.from.as_str()).collect();
    assert_eq!(from, vec!["/proj/target/release/app", e, "/proj/target/release/app.so", "/proj/target/release/flutter_assets"]);
    let to: Vec<&str> = job.copies.iter().map(|c| c.to.as_str()).collect();
    assert_eq!(
        to,
        vec![
            "/proj/target/release/AppDir/usr/bin/app",
            "/proj/target/release/AppDir/usr/lib/libflutter_engine.so",
            "/proj/target/release/AppDir/usr/lib/app.so",
            "/proj/target/release/AppDir/usr/share/flutter_assets",
        ]
    );
    assert_eq!(job.app_dir, "/proj/target/release/AppDir");
    assert_eq!(job.desktop_path, "/proj/target/release/AppDir/app.desktop");
    assert_eq!(job.output, "/proj/target/release/app.AppImage");
    assert_eq!(
        job.desktop_entry,
        "[Desktop Entry]\nType=Application\nName=app\nExec=app\nIcon=app\nCategories=Utility;\n"
    );
    assert_eq!(job.signing, Signing::NotRequested);
    assert!(job.icon_copy.is_none());
}

#[test]
fn appimage_config_fields_and_signing() {
    let p = assemble_package("app", "/b", "/e/libflutter_engine.so", Profile::Debug);
    let config = AppImageConfig {
        name: Some("My App".to_string()),
        icon: Some("/proj/icons/myicon.png".to_string()),
        categories: Some("Development".to_string()),
    };
    let job = AppImage::new(config).build("/b", &p, true).unwrap();
    assert_eq!(
        job.desktop_entry,
        "[Desktop Entry]\nType=Application\nName=My App\nExec=app\nIcon=myicon.png\nCategories=Development;\n"
    );
    assert_eq!(job.signing, Signing::Unsupported);
    assert_eq!(job.copies.len(), 3);
    let icon = job.icon_copy.unwrap();
    assert_eq!(icon.from, "/proj/icons/myicon.png");
    assert_eq!(icon.to, "/b/AppDir/myicon.png");
}

#[test]
fn appimage_errors() {
    let mut no_bin = Package::new("app");
    no_bin.add_lib("/e/libflutter_engine.so".to_string());
    let packager = AppImage::new(AppImageConfig::default());
    assert_eq!(packager.build("/b", &no_bin, false).err(), Some(Error::PackagingConfigInvalid));
    let p = assemble_package("app", "/b", "/e/lib.so", Profile::Debug);
    let empty_icon = AppImage::new(AppImageConfig { name: None, icon: Some("/".to_string()), categories: None });
    assert_eq!(empty_icon.build("/b", &p, false).err(), Some(Error::PackagingConfigInvalid));
}
