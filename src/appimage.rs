use vstd::prelude::*;
use crate::error::Error;
use crate::package::{Package, PackageModel};
use crate::text::{file_name, file_name_spec, join_spec, opt_view, path_join};

verus! {

/// Desktop-entry settings of an AppImage. `icon` is the path of an icon file,
/// which is copied into the image root and named in the entry by its file
/// name. An absent field takes its default: the package name for the name and
/// the icon name (with no file copied), `Utility` for the categories.
pub struct AppImageConfig {
    pub name: Option<String>,
    pub icon: Option<String>,
    pub categories: Option<String>,
}

impl Default for AppImageConfig {
    fn default() -> (r: AppImageConfig)
        ensures
            r.name is None,
            r.icon is None,
            r.categories is None,
    {
        AppImageConfig { name: None, icon: None, categories: None }
    }
}

/// What signing an AppImage amounts to: it was not asked for, or it was and
/// this format has no signing procedure.
#[derive(Debug, Clone, Copy, PartialEq, Eq, Structural)]
pub enum Signing {
    NotRequested,
    Unsupported,
}

/// One file or directory to copy into the image.
pub struct CopyStep {
    pub from: String,
    pub to: String,
}

impl View for CopyStep {
    type V = (Seq<char>, Seq<char>);

    open spec fn view(&self) -> (Seq<char>, Seq<char>) {
        (self.from@, self.to@)
    }
}

/// The text views of a sequence of copy steps.
pub open spec fn copy_views(v: Seq<CopyStep>) -> Seq<(Seq<char>, Seq<char>)> {
    v.map_values(|c: CopyStep| c@)
}

/// Everything that assembling the image needs.
pub struct AppImageJob {
    pub app_dir: String,
    pub copies: Vec<CopyStep>,
    pub icon_copy: Option<CopyStep>,
    pub desktop_path: String,
    pub desktop_entry: String,
    pub output: String,
    pub signing: Signing,
}

/// The image's directory tree under the build directory.
pub open spec fn app_dir_spec(build_dir: Seq<char>) -> Seq<char> {
    join_spec(build_dir, "AppDir"@)
}

/// Where an item of the package goes: the sub-directory `sub` of the image
/// tree, under its own file name.
pub open spec fn dest_spec(build_dir: Seq<char>, sub: Seq<char>, p: Seq<char>) -> Seq<char> {
    join_spec(join_spec(app_dir_spec(build_dir), sub), file_name_spec(p))
}

/// The layout of an image: the binary into `usr/bin`, then the libraries in
/// bundle order into `usr/lib`, then the asset directories into `usr/share`.
pub open spec fn is_layout(
    c: Seq<(Seq<char>, Seq<char>)>,
    build_dir: Seq<char>,
    bin: Seq<char>,
    m: PackageModel,
) -> bool {
    &&& c.len() == 1 + m.libs.len() + m.assets.len()
    &&& c[0] == (bin, dest_spec(build_dir, "usr/bin"@, bin))
    &&& forall|i: int|
        0 <= i < m.libs.len() ==> #[trigger] c[1 + i] == (m.libs[i], dest_spec(build_dir, "usr/lib"@, m.libs[i]))
    &&& forall|j: int|
        0 <= j < m.assets.len() ==> #[trigger] c[1 + m.libs.len() + j] == (
            m.assets[j],
            dest_spec(build_dir, "usr/share"@, m.assets[j]),
        )
}

/// The desktop entry of an image.
pub open spec fn desktop_spec(
    name: Seq<char>,
    exec: Seq<char>,
    icon: Seq<char>,
    categories: Seq<char>,
) -> Seq<char> {
    "[Desktop Entry]\nType=Application\nName="@ + name + "\nExec="@ + exec + "\nIcon="@ + icon
        + "\nCategories="@ + categories + ";\n"@
}

/// A configured field, or its default.
pub open spec fn or_default(o: Option<Seq<char>>, d: Seq<char>) -> Seq<char> {
    match o {
        Some(v) => v,
        None => d,
    }
}

/// The AppImage packager with its desktop-entry settings.
pub struct AppImage {
    pub config: AppImageConfig,
}

impl AppImage {
    /// The entry name: the configured one or the package name.
    pub open spec fn entry_name(&self, m: PackageModel) -> Seq<char> {
        or_default(opt_view(self.config.name), m.name)
    }

    /// The icon name: the configured icon's file name or the package name.
    pub open spec fn entry_icon(&self, m: PackageModel) -> Seq<char> {
        match self.config.icon {
            Some(p) => file_name_spec(p@),
            None => m.name,
        }
    }

    /// The categories: the configured ones or `Utility`.
    pub open spec fn entry_categories(&self) -> Seq<char> {
        or_default(opt_view(self.config.categories), "Utility"@)
    }

    /// The error of a request to package `m`, if it has one: no binary, or a
    /// desktop entry whose name or icon is empty.
    pub open spec fn error_of(&self, m: PackageModel) -> Option<Error> {
        if m.bin is None || self.entry_name(m).len() == 0 || self.entry_icon(m).len() == 0 {
            Some(Error::PackagingConfigInvalid)
        } else {
            None
        }
    }

    pub fn new(config: AppImageConfig) -> (r: AppImage)
        ensures
            r.config == config,
    {
        AppImage { config }
    }

    fn pick(o: &Option<String>, d: &str) -> (r: String)
        ensures
            r@ == or_default(opt_view(*o), d@),
    {
        match o {
            Some(v) => v.clone(),
            None => String::from_str(d),
        }
    }

    /// Prepares the image of `package` under `build_dir`: the copy steps of
    /// its layout, its desktop entry, and the output file. Signing is not
    /// available for this format and is reported as such when requested.
    pub fn build(&self, build_dir: &str, package: &Package, sign: bool) -> (r: Result<AppImageJob, Error>)
        ensures
            match self.error_of(package@) {
                Some(e) => r == Err::<AppImageJob, Error>(e),
                None => r is Ok && {
                    let job = r->Ok_0;
                    let m = package@;
                    let bin = m.bin->Some_0;
                    &&& job.app_dir@ == app_dir_spec(build_dir@)
                    &&& is_layout(copy_views(job.copies@), build_dir@, bin, m)
                    &&& match self.config.icon {
                        Some(p) => job.icon_copy is Some && job.icon_copy->Some_0@ == (
                            p@,
                            join_spec(app_dir_spec(build_dir@), file_name_spec(p@)),
                        ),
                        None => job.icon_copy is None,
                    }
                    &&& job.desktop_path@ == join_spec(app_dir_spec(build_dir@), m.name + ".desktop"@)
                    &&& job.desktop_entry@ == desktop_spec(
                        self.entry_name(m),
                        file_name_spec(bin),
                        self.entry_icon(m),
                        self.entry_categories(),
                    )
                    &&& job.output@ == join_spec(build_dir@, m.name + ".AppImage"@)
                    &&& job.signing == (if sign { Signing::Unsupported } else { Signing::NotRequested })
                },
            },
    {
        let bin = match package.bin() {
            Some(b) => b,
            None => return Err(Error::PackagingConfigInvalid),
        };
        let name = Self::pick(&self.config.name, package.name());
        let icon = match &self.config.icon {
            Some(p) => file_name(p.as_str()),
            None => String::from_str(package.name()),
        };
        let categories = Self::pick(&self.config.categories, "Utility");
        if name.unicode_len() == 0 || icon.unicode_len() == 0 {
            return Err(Error::PackagingConfigInvalid);
        }
        let app_dir = path_join(build_dir, "AppDir");
        let bin_dir = path_join(app_dir.as_str(), "usr/bin");
        let lib_dir = path_join(app_dir.as_str(), "usr/lib");
        let share_dir = path_join(app_dir.as_str(), "usr/share");
        let ghost m = package@;
        let ghost d = build_dir@;
        let mut copies: Vec<CopyStep> = Vec::new();
        copies.push(CopyStep { from: bin.clone(), to: path_join(bin_dir.as_str(), file_name(bin.as_str()).as_str()) });
        let nl = package.lib_count();
        let mut i: usize = 0;
        while i < nl
            invariant
                nl == m.libs.len(),
                m == package@,
                i <= nl,
                lib_dir@ == join_spec(app_dir_spec(d), "usr/lib"@),
                copies@.len() == 1 + i,
                copies@[0]@ == (m.bin->Some_0, dest_spec(d, "usr/bin"@, m.bin->Some_0)),
                forall|k: int|
                    0 <= k < i ==> #[trigger] copies@[1 + k]@ == (
                        m.libs[k],
                        dest_spec(d, "usr/lib"@, m.libs[k]),
                    ),
            decreases nl - i,
        {
            let l = package.lib(i);
            copies.push(CopyStep { from: l.clone(), to: path_join(lib_dir.as_str(), file_name(l.as_str()).as_str()) });
            i = i + 1;
        }
        let na = package.asset_count();
        let mut j: usize = 0;
        while j < na
            invariant
                nl == m.libs.len(),
                na == m.assets.len(),
                m == package@,
                j <= na,
                share_dir@ == join_spec(app_dir_spec(d), "usr/share"@),
                copies@.len() == 1 + nl + j,
                copies@[0]@ == (m.bin->Some_0, dest_spec(d, "usr/bin"@, m.bin->Some_0)),
                forall|k: int|
                    0 <= k < nl ==> #[trigger] copies@[1 + k]@ == (
                        m.libs[k],
                        dest_spec(d, "usr/lib"@, m.libs[k]),
                    ),
                forall|k: int|
                    0 <= k < j ==> #[trigger] copies@[1 + nl + k]@ == (
                        m.assets[k],
                        dest_spec(d, "usr/share"@, m.assets[k]),
                    ),
            decreases na - j,
        {
            let a = package.asset(j);
            copies.push(CopyStep { from: a.clone(), to: path_join(share_dir.as_str(), file_name(a.as_str()).as_str()) });
            j = j + 1;
        }
        let icon_copy = match &self.config.icon {
            Some(p) => Some(CopyStep { from: p.clone(), to: path_join(app_dir.as_str(), icon.as_str()) }),
            None => None,
        };
        let exec = file_name(bin.as_str());
        let entry = String::from_str("[Desktop Entry]\nType=Application\nName=").concat(name.as_str()).concat(
            "\nExec=",
        ).concat(exec.as_str()).concat("\nIcon=").concat(icon.as_str()).concat("\nCategories=").concat(
            categories.as_str(),
        ).concat(";\n");
        let desktop_name = String::from_str(package.name()).concat(".desktop");
        let desktop_path = path_join(app_dir.as_str(), desktop_name.as_str());
        let out_name = String::from_str(package.name()).concat(".AppImage");
        let output = path_join(build_dir, out_name.as_str());
        let signing = if sign {
            Signing::Unsupported
        } else {
            Signing::NotRequested
        };
        proof {
            let v = copy_views(copies@);
            assert(v.len() == copies@.len());
            assert forall|k: int| 0 <= k < v.len() implies v[k] == copies@[k]@ by {}
            assert(forall|k: int| 0 <= k < nl ==> #[trigger] v[1 + k] == copies@[1 + k]@);
            assert(forall|k: int| 0 <= k < na ==> #[trigger] v[1 + nl + k] == copies@[1 + nl + k]@);
        }
        Ok(AppImageJob { app_dir, copies, icon_copy, desktop_path, desktop_entry: entry, output, signing })
    }
}

} // verus!
