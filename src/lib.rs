//! Packaging pipeline for native applications that ship with a UI-framework
//! bundle: engine resolution, a format-agnostic package model, and the
//! per-format packaging plans (Android APK, Linux AppImage).
pub mod android;
pub mod appimage;
pub mod engine;
pub mod error;
pub mod format;
pub mod package;
pub mod pipeline;
pub mod profile;
pub mod text;

pub use android::{abi_of_triple, Abi, Apk, ApkJob, SharedLibrary, TomlApk};
pub use appimage::{AppImage, AppImageConfig, AppImageJob, CopyStep, Signing};
pub use engine::{resolve_version, EngineDescriptor, EngineKey, EngineStore, Resolution};
pub use error::Error;
pub use format::{select, Format};
pub use package::{Package, PackageModel, AddCall};
pub use pipeline::{assemble_package, plan, run_paths, Command, Flags, NativeStep, Plan, RunPaths};
pub use profile::{should_sign, Profile};
pub use text::{file_name, path_join, str_contains, str_equal};
