use vstd::prelude::*;
use crate::error::Error;
use crate::package::{Package, PackageModel};
use crate::text::{file_name, file_name_spec, str_equal};

verus! {

/// Android ABIs that the NDK builds for.
#[derive(Debug, Clone, Copy, PartialEq, Eq, Structural)]
pub enum Abi {
    ArmV7a,
    Arm64V8a,
    X86,
    X86_64,
}

/// The ABI of a Rust target triple, if it is an Android one.
pub open spec fn abi_spec(triple: Seq<char>) -> Option<Abi> {
    if triple == "armv7-linux-androideabi"@ {
        Some(Abi::ArmV7a)
    } else if triple == "aarch64-linux-android"@ {
        Some(Abi::Arm64V8a)
    } else if triple == "i686-linux-android"@ {
        Some(Abi::X86)
    } else if triple == "x86_64-linux-android"@ {
        Some(Abi::X86_64)
    } else {
        None
    }
}

/// The ABI of a Rust target triple, if it is an Android one.
pub fn abi_of_triple(triple: &str) -> (r: Option<Abi>)
    ensures
        r == abi_spec(triple@),
{
    if str_equal(triple, "armv7-linux-androideabi") {
        Some(Abi::ArmV7a)
    } else if str_equal(triple, "aarch64-linux-android") {
        Some(Abi::Arm64V8a)
    } else if str_equal(triple, "i686-linux-android") {
        Some(Abi::X86)
    } else if str_equal(triple, "x86_64-linux-android") {
        Some(Abi::X86_64)
    } else {
        None
    }
}

/// Project-level Android options; none beyond the defaults yet.
#[derive(Debug, Default, Clone)]
pub struct TomlApk {}

/// The view of a shared library entry: its target, ABI, path and file name.
pub struct LibraryEntry {
    pub target: Seq<char>,
    pub abi: Abi,
    pub path: Seq<char>,
    pub filename: Seq<char>,
}

/// One native library to place in the package, keyed by its build target and ABI.
pub struct SharedLibrary {
    pub target: String,
    pub abi: Abi,
    pub path: String,
    pub filename: String,
}

impl View for SharedLibrary {
    type V = LibraryEntry;

    open spec fn view(&self) -> LibraryEntry {
        LibraryEntry {
            target: self.target@,
            abi: self.abi,
            path: self.path@,
            filename: self.filename@,
        }
    }
}

/// The entry of library `path` in a package named `name`, built for `abi`.
pub open spec fn entry_spec(name: Seq<char>, abi: Abi, path: Seq<char>) -> LibraryEntry {
    LibraryEntry { target: name, abi, path, filename: file_name_spec(path) }
}

/// What the Android packaging tool is handed: the assets root, one entry per
/// native library in bundle order, and whether to sign.
pub struct ApkJob {
    pub assets_root: String,
    pub libraries: Vec<SharedLibrary>,
    pub sign: bool,
}

/// The Android packager, with the ABIs that the project declares.
pub struct Apk {
    build_targets: Vec<Abi>,
}

/// Whether `abi` is among the declared ABIs.
pub open spec fn declared(targets: Seq<Abi>, abi: Abi) -> bool {
    exists|i: int| 0 <= i < targets.len() && targets[i] == abi
}

/// The text views of the build triples.
pub open spec fn triple_views(v: Seq<String>) -> Seq<Seq<char>> {
    v.map_values(|t: String| t@)
}

/// Whether some library was built for `abi`, given the build triple of each.
pub open spec fn covered(triples: Seq<Seq<char>>, abi: Abi) -> bool {
    exists|i: int| 0 <= i < triples.len() && abi_spec(triples[i]) == Some(abi)
}

/// The error of an Android packaging request, if it has one, checked in this
/// order: no assets root, no declared ABI, a library without exactly one
/// build triple, a triple that is not Android, a library built for an ABI
/// that is not declared, or a declared ABI that no library was built for.
pub open spec fn apk_error(targets: Seq<Abi>, m: PackageModel, triples: Seq<Seq<char>>) -> Option<Error> {
    if m.assets.len() == 0 || targets.len() == 0 || triples.len() != m.libs.len() {
        Some(Error::PackagingConfigInvalid)
    } else if exists|i: int| 0 <= i < triples.len() && abi_spec(#[trigger] triples[i]) is None {
        Some(Error::UnsupportedTarget)
    } else if exists|i: int|
        0 <= i < triples.len() && !declared(targets, abi_spec(#[trigger] triples[i])->Some_0) {
        Some(Error::PackagingConfigInvalid)
    } else if exists|k: int| 0 <= k < targets.len() && !covered(triples, #[trigger] targets[k]) {
        Some(Error::PackagingConfigInvalid)
    } else {
        None
    }
}

impl Apk {
    /// A packager for the given declared ABIs.
    pub fn new(build_targets: Vec<Abi>) -> (r: Apk)
        ensures
            r.targets() == build_targets@,
    {
        Apk { build_targets }
    }

    /// The declared ABIs.
    pub closed spec fn targets(&self) -> Seq<Abi> {
        self.build_targets@
    }

    fn declares(&self, abi: Abi) -> (r: bool)
        ensures
            r == declared(self.targets(), abi),
    {
        let mut i: usize = 0;
        while i < self.build_targets.len()
            invariant
                i <= self.build_targets@.len(),
                forall|k: int| 0 <= k < i ==> self.build_targets@[k] != abi,
            decreases self.build_targets@.len() - i,
        {
            if self.build_targets[i] == abi {
                return true;
            }
            i = i + 1;
        }
        false
    }

    /// Prepares the Android packaging of `package`, whose library `i` was
    /// built for `triples[i]`: the first asset directory becomes the assets
    /// root, and each library gets an entry under the package's build target
    /// with the ABI of its own triple. Every declared ABI must receive at
    /// least one entry, and every entry's ABI must be declared.
    pub fn build(&self, package: &Package, triples: &Vec<String>, sign: bool) -> (r: Result<ApkJob, Error>)
        ensures
            match apk_error(self.targets(), package@, triple_views(triples@)) {
                Some(e) => r == Err::<ApkJob, Error>(e),
                None => r is Ok && {
                    let job = r->Ok_0;
                    &&& job.assets_root@ == package@.assets[0]
                    &&& job.sign == sign
                    &&& job.libraries@.len() == package@.libs.len()
                    &&& forall|i: int|
                        0 <= i < job.libraries@.len() ==> #[trigger] job.libraries@[i]@
                            == entry_spec(package@.name, abi_spec(triples@[i]@)->Some_0, package@.libs[i])
                    &&& forall|k: int|
                        0 <= k < self.targets().len() ==> exists|j: int|
                            0 <= j < job.libraries@.len() && #[trigger] job.libraries@[j].abi
                                == #[trigger] self.targets()[k]
                },
            },
    {
        let ghost tv = triple_views(triples@);
        let n = package.lib_count();
        if package.asset_count() == 0 || self.build_targets.len() == 0 || triples.len() != n {
            return Err(Error::PackagingConfigInvalid);
        }
        let mut abis: Vec<Abi> = Vec::new();
        let mut i: usize = 0;
        while i < n
            invariant
                package@.assets.len() > 0,
                self.targets().len() > 0,
                package@.libs.len() == tv.len(),
                tv == triple_views(triples@),
                n == package@.libs.len(),
                n == triples@.len(),
                tv == triple_views(triples@),
                i <= n,
                abis@.len() == i,
                forall|k: int| 0 <= k < i ==> abi_spec(#[trigger] tv[k]) == Some(abis@[k]),
            decreases n - i,
        {
            match abi_of_triple(triples[i].as_str()) {
                Some(a) => abis.push(a),
                None => {
                    assert(abi_spec(tv[i as int]) is None);
                    return Err(Error::UnsupportedTarget);
                },
            }
            i = i + 1;
        }
        let mut i: usize = 0;
        while i < n
            invariant
                package@.assets.len() > 0,
                self.targets().len() > 0,
                package@.libs.len() == tv.len(),
                tv == triple_views(triples@),
                n == abis@.len(),
                n == tv.len(),
                i <= n,
                forall|k: int| 0 <= k < n ==> abi_spec(#[trigger] tv[k]) == Some(abis@[k]),
                forall|k: int| 0 <= k < i ==> declared(self.targets(), #[trigger] abis@[k]),
            decreases n - i,
        {
            if !self.declares(abis[i]) {
                assert(!declared(self.targets(), abi_spec(tv[i as int])->Some_0));
                assert(!(exists|q: int| 0 <= q < tv.len() && abi_spec(#[trigger] tv[q]) is None));
                assert(exists|q: int|
                    0 <= q < tv.len() && !declared(self.targets(), abi_spec(#[trigger] tv[q])->Some_0));
                return Err(Error::PackagingConfigInvalid);
            }
            i = i + 1;
        }
        let mut k: usize = 0;
        while k < self.build_targets.len()
            invariant
                package@.assets.len() > 0,
                self.targets().len() > 0,
                package@.libs.len() == tv.len(),
                tv == triple_views(triples@),
                n == abis@.len(),
                n == tv.len(),
                k <= self.targets().len(),
                self.targets() == self.build_targets@,
                forall|q: int| 0 <= q < n ==> abi_spec(#[trigger] tv[q]) == Some(abis@[q]),
                forall|q: int| 0 <= q < k ==> covered(tv, #[trigger] self.targets()[q]),
                forall|q: int| 0 <= q < n ==> declared(self.targets(), #[trigger] abis@[q]),
            decreases self.build_targets@.len() - k,
        {
            let want = self.build_targets[k];
            let mut j: usize = 0;
            let mut found = false;
            while j < n && !found
                invariant
                package@.assets.len() > 0,
                self.targets().len() > 0,
                package@.libs.len() == tv.len(),
                tv == triple_views(triples@),
                    n == abis@.len(),
                    j <= n,
                    found ==> covered(tv, want),
                    !found ==> forall|q: int| 0 <= q < j ==> abis@[q] != want,
                    forall|q: int| 0 <= q < n ==> abi_spec(#[trigger] tv[q]) == Some(abis@[q]),
                    n == tv.len(),
                decreases n - j,
            {
                if abis[j] == want {
                    assert(abi_spec(tv[j as int]) == Some(want));
                    found = true;
                }
                j = j + 1;
            }
            if !found {
                assert forall|q: int| 0 <= q < tv.len() implies abi_spec(tv[q]) != Some(want) by {
                    assert(abi_spec(tv[q]) == Some(abis@[q]));
                }
                assert(!covered(tv, self.targets()[k as int]));
                assert(!(exists|q: int| 0 <= q < tv.len() && abi_spec(#[trigger] tv[q]) is None));
                assert(!(exists|q: int|
                    0 <= q < tv.len() && !declared(self.targets(), abi_spec(#[trigger] tv[q])->Some_0)));
                return Err(Error::PackagingConfigInvalid);
            }
            k = k + 1;
        }
        let assets_root = package.asset(0).clone();
        let mut libraries: Vec<SharedLibrary> = Vec::new();
        let mut i: usize = 0;
        while i < n
            invariant
                package@.assets.len() > 0,
                self.targets().len() > 0,
                package@.libs.len() == tv.len(),
                tv == triple_views(triples@),
                n == package@.libs.len(),
                n == abis@.len(),
                n == tv.len(),
                tv == triple_views(triples@),
                i <= n,
                libraries@.len() == i,
                forall|q: int| 0 <= q < n ==> abi_spec(#[trigger] tv[q]) == Some(abis@[q]),
                forall|q: int|
                    0 <= q < i ==> #[trigger] libraries@[q]@ == entry_spec(
                        package@.name,
                        abis@[q],
                        package@.libs[q],
                    ),
            decreases n - i,
        {
            let path = package.lib(i);
            let entry = SharedLibrary {
                target: String::from_str(package.name()),
                abi: abis[i],
                path: path.clone(),
                filename: file_name(path.as_str()),
            };
            libraries.push(entry);
            i = i + 1;
        }
        proof {
            assert forall|q: int| 0 <= q < n implies abi_spec(#[trigger] triples@[q]@) == Some(abis@[q]) by {
                assert(tv[q] == triples@[q]@);
            }
            assert forall|k: int| 0 <= k < self.targets().len() implies exists|j: int|
                0 <= j < libraries@.len() && #[trigger] libraries@[j].abi == #[trigger] self.targets()[k] by {
                let t = self.targets()[k];
                assert(covered(tv, t));
                let j = choose|j: int| 0 <= j < tv.len() && abi_spec(tv[j]) == Some(t);
                assert(libraries@[j]@ == entry_spec(package@.name, abis@[j], package@.libs[j]));
                assert(libraries@[j].abi == t);
            }
        }
        Ok(ApkJob { assets_root, libraries, sign })
    }
}

/// A package from a single native build, for a project that declares just
/// the ABI of that build's triple, is accepted: with its build contract, each
/// library then gets one entry of that ABI, in bundle order, and the first
/// asset directory is the assets root.
pub proof fn lemma_single_build_accepted(m: PackageModel, triples: Seq<Seq<char>>, t: Seq<char>)
    requires
        m.assets.len() > 0,
        m.libs.len() > 0,
        triples.len() == m.libs.len(),
        forall|i: int| 0 <= i < triples.len() ==> triples[i] == t,
        abi_spec(t) is Some,
    ensures
        apk_error(seq![abi_spec(t)->Some_0], m, triples) is None,
{
    let abi = abi_spec(t)->Some_0;
    let targets = seq![abi];
    assert(targets[0] == abi);
    assert(declared(targets, abi));
    assert(abi_spec(triples[0]) == Some(abi));
    assert(covered(triples, abi));
    assert(forall|k: int| 0 <= k < targets.len() ==> targets[k] == abi);
}

} // verus!
