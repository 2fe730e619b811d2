use vstd::prelude::*;
use crate::appimage::{is_layout, AppImage};
use crate::package::{Package, PackageModel};
use crate::profile::{sign_spec, should_sign, Profile};
use crate::text::{join_spec, path_join};

verus! {

/// The switches that shape a run of the pipeline.
#[derive(Debug, Clone, Copy, PartialEq, Eq, Structural)]
pub struct Flags {
    /// Skip bundling, the snapshot and attaching alike.
    pub no_flutter: bool,
    pub no_bundle: bool,
    pub no_attach: bool,
    pub no_aot: bool,
    /// Sign a debug build.
    pub sign: bool,
    /// Do not sign a release build.
    pub no_sign: bool,
}

/// The requested subcommand of the native build tool.
#[derive(Debug, Clone, Copy, PartialEq, Eq, Structural)]
pub enum Command {
    Build,
    Run,
    Other,
}

/// How the native binary is produced: built, or built and launched.
#[derive(Debug, Clone, Copy, PartialEq, Eq, Structural)]
pub enum NativeStep {
    Build,
    Run,
}

/// The stages that one run of the pipeline performs, in this order: bundle,
/// snapshot, the native step, then attaching a debugger or packaging.
#[derive(Debug, Clone, Copy, PartialEq, Eq, Structural)]
pub struct Plan {
    pub bundle: bool,
    pub aot: bool,
    pub native: NativeStep,
    pub attach: bool,
    pub package: bool,
    pub sign: bool,
}

/// The plan of a run. Without a project configuration only the native build
/// happens.
pub open spec fn plan_spec(
    configured: bool,
    command: Command,
    profile: Profile,
    flags: Flags,
    format_requested: bool,
) -> Plan {
    let flutter = configured && !flags.no_flutter;
    Plan {
        bundle: flutter && !flags.no_bundle,
        aot: flutter && !flags.no_aot && profile == Profile::Release,
        native: if configured && command == Command::Run {
            NativeStep::Run
        } else {
            NativeStep::Build
        },
        attach: flutter && command == Command::Run && !flags.no_attach,
        package: configured && command == Command::Build && format_requested,
        sign: sign_spec(profile, flags.sign, flags.no_sign),
    }
}

/// Decides which stages a run performs.
pub fn plan(
    configured: bool,
    command: Command,
    profile: Profile,
    flags: Flags,
    format_requested: bool,
) -> (r: Plan)
    ensures
        r == plan_spec(configured, command, profile, flags, format_requested),
{
    let flutter = configured && !flags.no_flutter;
    Plan {
        bundle: flutter && !flags.no_bundle,
        aot: flutter && !flags.no_aot && profile.aot(),
        native: if configured && command == Command::Run {
            NativeStep::Run
        } else {
            NativeStep::Build
        },
        attach: flutter && command == Command::Run && !flags.no_attach,
        package: configured && command == Command::Build && format_requested,
        sign: should_sign(profile, flags.sign, flags.no_sign),
    }
}

/// Without a project configuration the pipeline only builds the native
/// binary: no bundle, no snapshot, no debugger, no packaging.
pub proof fn lemma_unconfigured_builds_only(
    command: Command,
    profile: Profile,
    flags: Flags,
    format_requested: bool,
)
    ensures
        ({
            let p = plan_spec(false, command, profile, flags, format_requested);
            &&& !p.bundle
            &&& !p.aot
            &&& !p.attach
            &&& !p.package
            &&& p.native == NativeStep::Build
        }),
{
}

/// The snapshot produced for a release build, under the build directory.
pub open spec fn snapshot_spec(build_dir: Seq<char>) -> Seq<char> {
    join_spec(build_dir, "app.so"@)
}

/// The bundled asset tree, under the build directory.
pub open spec fn asset_dir_spec(build_dir: Seq<char>) -> Seq<char> {
    join_spec(build_dir, "flutter_assets"@)
}

/// The package of a run: the binary named after the package in the build
/// directory, the engine, the snapshot for a release build, and the assets.
pub open spec fn assembled_spec(
    name: Seq<char>,
    build_dir: Seq<char>,
    engine: Seq<char>,
    profile: Profile,
) -> PackageModel {
    PackageModel {
        name,
        bin: Some(join_spec(build_dir, name)),
        libs: if profile == Profile::Release {
            seq![engine, snapshot_spec(build_dir)]
        } else {
            seq![engine]
        },
        assets: seq![asset_dir_spec(build_dir)],
    }
}

/// Where a launched binary finds the snapshot and the assets.
pub struct RunPaths {
    pub aot_snapshot: String,
    pub asset_dir: String,
}

/// The snapshot and asset paths handed to a launched binary.
pub fn run_paths(build_dir: &str) -> (r: RunPaths)
    ensures
        r.aot_snapshot@ == snapshot_spec(build_dir@),
        r.asset_dir@ == asset_dir_spec(build_dir@),
{
    RunPaths { aot_snapshot: path_join(build_dir, "app.so"), asset_dir: path_join(build_dir, "flutter_assets") }
}

/// Builds the package of a run from the build directory and the engine.
pub fn assemble_package(name: &str, build_dir: &str, engine_path: &str, profile: Profile) -> (r: Package)
    ensures
        r@ == assembled_spec(name@, build_dir@, engine_path@, profile),
{
    let mut package = Package::new(name);
    package.add_bin(path_join(build_dir, name));
    package.add_lib(String::from_str(engine_path));
    if profile.aot() {
        package.add_lib(path_join(build_dir, "app.so"));
    }
    package.add_asset(path_join(build_dir, "flutter_assets"));
    proof {
        let m = assembled_spec(name@, build_dir@, engine_path@, profile);
        assert(package@.libs =~= m.libs);
        assert(package@.assets =~= m.assets);
    }
    package
}

/// A release build packaged as an AppImage: the package holds the engine and
/// then the snapshot as its libraries, and every valid layout of its image
/// copies the binary from the build directory, the engine, the snapshot and
/// the asset tree, in that order.
pub proof fn lemma_release_appimage(
    name: Seq<char>,
    build_dir: Seq<char>,
    engine: Seq<char>,
    packager: AppImage,
    copies: Seq<(Seq<char>, Seq<char>)>,
)
    requires
        name.len() > 0,
        packager.config.name is None || packager.config.name->Some_0@.len() > 0,
        packager.config.icon is None || crate::text::file_name_spec(packager.config.icon->Some_0@).len() > 0,
        is_layout(
            copies,
            build_dir,
            join_spec(build_dir, name),
            assembled_spec(name, build_dir, engine, Profile::Release),
        ),
    ensures
        assembled_spec(name, build_dir, engine, Profile::Release).libs == seq![
            engine,
            snapshot_spec(build_dir),
        ],
        packager.error_of(assembled_spec(name, build_dir, engine, Profile::Release)) is None,
        copies.len() == 4,
        copies[0].0 == join_spec(build_dir, name),
        copies[1].0 == engine,
        copies[2].0 == snapshot_spec(build_dir),
        copies[3].0 == asset_dir_spec(build_dir),
{
    let m = assembled_spec(name, build_dir, engine, Profile::Release);
    assert(copies[1int + 0int] == (m.libs[0], crate::appimage::dest_spec(build_dir, "usr/lib"@, m.libs[0])));
    assert(copies[1int + 1int] == (m.libs[1], crate::appimage::dest_spec(build_dir, "usr/lib"@, m.libs[1])));
    assert(copies[1int + 2int + 0int] == (
        m.assets[0],
        crate::appimage::dest_spec(build_dir, "usr/share"@, m.assets[0]),
    ));
}

} // verus!
