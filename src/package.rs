use vstd::prelude::*;

verus! {

/// The mathematical view of a package: what ships, as text paths.
pub struct PackageModel {
    pub name: Seq<char>,
    pub bin: Option<Seq<char>>,
    pub libs: Seq<Seq<char>>,
    pub assets: Seq<Seq<char>>,
}

/// One accumulation call on a package.
pub enum AddCall {
    Bin(Seq<char>),
    Lib(Seq<char>),
    Asset(Seq<char>),
}

/// A freshly created package: a name and nothing else.
pub open spec fn fresh_model(name: Seq<char>) -> PackageModel {
    PackageModel { name, bin: None, libs: seq![], assets: seq![] }
}

/// The effect of one accumulation call.
pub open spec fn apply_call(m: PackageModel, c: AddCall) -> PackageModel {
    match c {
        AddCall::Bin(p) => PackageModel { bin: Some(p), ..m },
        AddCall::Lib(p) => PackageModel { libs: m.libs.push(p), ..m },
        AddCall::Asset(p) => PackageModel { assets: m.assets.push(p), ..m },
    }
}

/// The effect of a sequence of accumulation calls, in order.
pub open spec fn apply_calls(m: PackageModel, calls: Seq<AddCall>) -> PackageModel
    decreases calls.len(),
{
    if calls.len() == 0 {
        m
    } else {
        apply_call(apply_calls(m, calls.drop_last()), calls.last())
    }
}

/// The arguments of the library calls among `calls`, in call order.
pub open spec fn lib_args(calls: Seq<AddCall>) -> Seq<Seq<char>>
    decreases calls.len(),
{
    if calls.len() == 0 {
        seq![]
    } else {
        let rest = lib_args(calls.drop_last());
        match calls.last() {
            AddCall::Lib(p) => rest.push(p),
            _ => rest,
        }
    }
}

/// The arguments of the asset calls among `calls`, in call order.
pub open spec fn asset_args(calls: Seq<AddCall>) -> Seq<Seq<char>>
    decreases calls.len(),
{
    if calls.len() == 0 {
        seq![]
    } else {
        let rest = asset_args(calls.drop_last());
        match calls.last() {
            AddCall::Asset(p) => rest.push(p),
            _ => rest,
        }
    }
}

/// The argument of the last binary call among `calls`, if any.
pub open spec fn last_bin(calls: Seq<AddCall>) -> Option<Seq<char>>
    decreases calls.len(),
{
    if calls.len() == 0 {
        None
    } else {
        match calls.last() {
            AddCall::Bin(p) => Some(p),
            _ => last_bin(calls.drop_last()),
        }
    }
}

/// A format-agnostic description of what ships: one primary binary, the
/// native libraries in bundle order, and the asset directories.
pub struct Package {
    name: String,
    bin: Option<String>,
    libs: Vec<String>,
    assets: Vec<String>,
}

impl View for Package {
    type V = PackageModel;

    closed spec fn view(&self) -> PackageModel {
        PackageModel {
            name: self.name@,
            bin: match self.bin {
                Some(b) => Some(b@),
                None => None,
            },
            libs: self.libs@.map_values(|s: String| s@),
            assets: self.assets@.map_values(|s: String| s@),
        }
    }
}

impl Package {
    /// An empty package with the given name.
    pub fn new(name: &str) -> (r: Package)
        ensures
            r@ == fresh_model(name@),
    {
        let r = Package { name: String::from_str(name), bin: None, libs: Vec::new(), assets: Vec::new() };
        assert(r@.libs =~= Seq::<Seq<char>>::empty());
        assert(r@.assets =~= Seq::<Seq<char>>::empty());
        r
    }

    /// Sets the primary binary; a later call replaces an earlier one.
    pub fn add_bin(&mut self, path: String)
        ensures
            final(self)@ == apply_call(old(self)@, AddCall::Bin(path@)),
    {
        self.bin = Some(path);
    }

    /// Appends a native library.
    pub fn add_lib(&mut self, path: String)
        ensures
            final(self)@ == apply_call(old(self)@, AddCall::Lib(path@)),
    {
        let ghost p = path@;
        self.libs.push(path);
        assert(self@.libs =~= old(self)@.libs.push(p));
    }

    /// Appends an asset directory.
    pub fn add_asset(&mut self, path: String)
        ensures
            final(self)@ == apply_call(old(self)@, AddCall::Asset(path@)),
    {
        let ghost p = path@;
        self.assets.push(path);
        assert(self@.assets =~= old(self)@.assets.push(p));
    }

    /// The package name.
    pub fn name(&self) -> (r: &str)
        ensures
            r@ == self@.name,
    {
        self.name.as_str()
    }

    /// The primary binary, if one was set.
    pub fn bin(&self) -> (r: Option<&String>)
        ensures
            match r {
                Some(b) => self@.bin == Some(b@),
                None => self@.bin is None,
            },
    {
        match &self.bin {
            Some(b) => Some(b),
            None => None,
        }
    }

    /// The number of native libraries.
    pub fn lib_count(&self) -> (r: usize)
        ensures
            r == self@.libs.len(),
    {
        self.libs.len()
    }

    /// The native library at position `i`, in bundle order.
    pub fn lib(&self, i: usize) -> (r: &String)
        requires
            i < self@.libs.len(),
        ensures
            r@ == self@.libs[i as int],
    {
        &self.libs[i]
    }

    /// The number of asset directories.
    pub fn asset_count(&self) -> (r: usize)
        ensures
            r == self@.assets.len(),
    {
        self.assets.len()
    }

    /// The asset directory at position `i`.
    pub fn asset(&self, i: usize) -> (r: &String)
        requires
            i < self@.assets.len(),
        ensures
            r@ == self@.assets[i as int],
    {
        &self.assets[i]
    }
}

/// Accumulation keeps the name, appends the library and asset arguments in
/// call order, and keeps the last binary set, if any.
pub proof fn lemma_accumulate(m: PackageModel, calls: Seq<AddCall>)
    ensures
        apply_calls(m, calls)
            == (PackageModel {
            name: m.name,
            bin: match last_bin(calls) {
                Some(b) => Some(b),
                None => m.bin,
            },
            libs: m.libs + lib_args(calls),
            assets: m.assets + asset_args(calls),
        }),
    decreases calls.len(),
{
    if calls.len() == 0 {
        assert(m.libs + lib_args(calls) =~= m.libs);
        assert(m.assets + asset_args(calls) =~= m.assets);
    } else {
        let rest = calls.drop_last();
        lemma_accumulate(m, rest);
        match calls.last() {
            AddCall::Lib(p) => {
                assert(m.libs + lib_args(rest).push(p) =~= (m.libs + lib_args(rest)).push(p));
            },
            AddCall::Asset(p) => {
                assert(m.assets + asset_args(rest).push(p) =~= (m.assets + asset_args(rest)).push(p));
            },
            AddCall::Bin(_) => {},
        }
    }
}

/// Any sequence of library and asset calls on a fresh package leaves its
/// `libs` and `assets` equal to those calls' arguments, in call order; the
/// result depends on the call sequence alone, so replaying it on another
/// fresh package of that name gives the same package.
pub proof fn lemma_accumulation_in_call_order(name: Seq<char>, calls: Seq<AddCall>)
    ensures
        apply_calls(fresh_model(name), calls).libs == lib_args(calls),
        apply_calls(fresh_model(name), calls).assets == asset_args(calls),
        apply_calls(fresh_model(name), calls).bin == last_bin(calls),
        apply_calls(fresh_model(name), calls).name == name,
{
    lemma_accumulate(fresh_model(name), calls);
    assert(seq![] + lib_args(calls) =~= lib_args(calls));
    assert(seq![] + asset_args(calls) =~= asset_args(calls));
}

/// Setting the binary twice keeps the second one.
pub proof fn lemma_last_bin_wins(m: PackageModel, a: Seq<char>, b: Seq<char>)
    ensures
        apply_call(apply_call(m, AddCall::Bin(a)), AddCall::Bin(b)).bin == Some(b),
{
}

} // verus!
