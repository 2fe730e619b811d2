use vstd::prelude::*;

verus! {

/// The build profile of the native binary and of the engine that matches it.
#[derive(Debug, Clone, Copy, PartialEq, Eq, Structural)]
pub enum Profile {
    Debug,
    Release,
}

/// Whether a package is signed: a debug build only on explicit request, a
/// release build unless explicitly declined.
pub open spec fn sign_spec(profile: Profile, sign: bool, no_sign: bool) -> bool {
    match profile {
        Profile::Debug => sign,
        Profile::Release => !no_sign,
    }
}

impl Profile {
    /// The profile of a native build, from whether it was a release build.
    pub fn from_release(release: bool) -> (r: Profile)
        ensures
            r == (if release { Profile::Release } else { Profile::Debug }),
    {
        if release {
            Profile::Release
        } else {
            Profile::Debug
        }
    }

    /// Whether this profile expects an ahead-of-time snapshot.
    pub fn aot(&self) -> (r: bool)
        ensures
            r == (*self == Profile::Release),
    {
        match self {
            Profile::Debug => false,
            Profile::Release => true,
        }
    }

    /// The directory name under which engines of this profile are cached.
    pub fn name(&self) -> (r: &'static str)
        ensures
            r@ == profile_name(*self),
    {
        match self {
            Profile::Debug => "debug_unopt",
            Profile::Release => "release",
        }
    }
}

/// The name of a profile, as used in engine cache paths.
pub open spec fn profile_name(p: Profile) -> Seq<char> {
    match p {
        Profile::Debug => "debug_unopt"@,
        Profile::Release => "release"@,
    }
}

/// Whether the package is signed, from the profile and the two signing flags.
pub fn should_sign(profile: Profile, sign: bool, no_sign: bool) -> (r: bool)
    ensures
        r == sign_spec(profile, sign, no_sign),
{
    match profile {
        Profile::Debug => sign,
        Profile::Release => !no_sign,
    }
}

} // verus!
