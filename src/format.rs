use vstd::prelude::*;
use crate::error::Error;
use crate::text::str_equal;

verus! {

/// The closed set of packaging formats; each has exactly one packager.
#[derive(Debug, Clone, Copy, PartialEq, Eq, Structural)]
pub enum Format {
    AppImage,
    Apk,
}

/// The registered name of a format.
pub open spec fn format_name(f: Format) -> Seq<char> {
    match f {
        Format::AppImage => "appimage"@,
        Format::Apk => "apk"@,
    }
}

/// Whether `name` is the registered name of some format.
pub open spec fn is_registered(name: Seq<char>) -> bool {
    exists|f: Format| format_name(f) == name
}

/// The format registered under `name`, or the refusal of an unregistered one.
pub open spec fn select_spec(name: Seq<char>) -> Result<Format, Error> {
    if name == "appimage"@ {
        Ok(Format::AppImage)
    } else if name == "apk"@ {
        Ok(Format::Apk)
    } else {
        Err(Error::FormatNotSupported)
    }
}

impl Format {
    /// The registered name of this format.
    pub fn name(&self) -> (r: &'static str)
        ensures
            r@ == format_name(*self),
    {
        match self {
            Format::AppImage => "appimage",
            Format::Apk => "apk",
        }
    }
}

/// Looks a format up by its registered name; any other name is refused.
pub fn select(name: &str) -> (r: Result<Format, Error>)
    ensures
        r == select_spec(name@),
        is_registered(name@) <==> r is Ok,
        !is_registered(name@) ==> r == Err::<Format, Error>(Error::FormatNotSupported),
        r is Ok ==> format_name(r->Ok_0) == name@,
{
    if str_equal(name, "appimage") {
        assert(format_name(Format::AppImage) == name@);
        Ok(Format::AppImage)
    } else if str_equal(name, "apk") {
        assert(format_name(Format::Apk) == name@);
        Ok(Format::Apk)
    } else {
        proof {
            assert forall|f: Format| format_name(f) != name@ by {
                match f {
                    Format::AppImage => {},
                    Format::Apk => {},
                }
            }
        }
        Err(Error::FormatNotSupported)
    }
}

} // verus!
