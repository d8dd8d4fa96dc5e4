//! Where the screenshots are written: the screenshot tool's configured
//! location when it can be understood, the desktop otherwise.
use vstd::prelude::*;
use vstd::string::StrSliceExecFns;
use vstd::string::StringExecFns;
use crate::paths::{join, join_path};
use crate::text::{has_prefix, starts_with, trim, trim_of};

verus! {

#[derive(Clone, Copy, Debug, PartialEq, Eq)]
pub enum LocationError {
    /// The location is neither `~/`-relative nor inside the home directory.
    NotUnderHome,
}

/// What `std::path::Path::starts_with` answers for `p` and `base`: `base`'s
/// components are the first components of `p`.
pub uninterp spec fn path_within(p: Seq<char>, base: Seq<char>) -> bool;

/// The directory that the configured location `raw` names, given the home
/// directory `home` and whether `raw` lies within `home` (`within`).
pub open spec fn clean_path(raw: Seq<char>, home: Seq<char>, within: bool) -> Result<
    Seq<char>,
    LocationError,
> {
    if has_prefix(raw, "~/"@) {
        Ok(join(home, raw.subrange(2, raw.len() as int)))
    } else if within {
        Ok(raw)
    } else {
        Err(LocationError::NotUnderHome)
    }
}

/// The screenshot directory, given what the screenshot tool reported as its
/// location (`None` when it could not be asked or did not answer).
pub open spec fn screenshot_dir_of(reported: Option<Seq<char>>, home: Seq<char>, desktop: Seq<char>) -> Seq<char> {
    match reported {
        None => desktop,
        Some(out) => {
            let raw = trim_of(out);
            match clean_path(raw, home, path_within(raw, home)) {
                Ok(p) => p,
                Err(_) => desktop,
            }
        },
    }
}

/// Relies on `std::path::Path::starts_with`, which compares whole components.
#[verifier::external_body]
fn path_starts_with(p: &str, base: &str) -> (r: bool)
    ensures
        r == path_within(p@, base@),
{
    std::path::Path::new(p).starts_with(base)
}

/// The directory that `raw` names, given whether it lies within `home`.
pub fn clean_path_from(raw: &str, home: &str, within: bool) -> (r: Result<String, LocationError>)
    ensures
        match clean_path(raw@, home@, within) {
            Ok(p) => r matches Ok(q) && q@ == p,
            Err(e) => r == Err::<String, LocationError>(e),
        },
{
    if starts_with(raw, "~/") {
        proof {
            reveal_strlit("~/");
        }
        let n = raw.unicode_len();
        Ok(join_path(home, raw.substring_char(2, n)))
    } else if within {
        Ok(String::from_str(raw))
    } else {
        Err(LocationError::NotUnderHome)
    }
}

/// The directory that the configured location `raw` names: a `~/`-relative
/// location is placed under `home`; any other must lie within `home`.
pub fn get_clean_path(raw: &str, home: &str) -> (r: Result<String, LocationError>)
    ensures
        match clean_path(raw@, home@, path_within(raw@, home@)) {
            Ok(p) => r matches Ok(q) && q@ == p,
            Err(e) => r == Err::<String, LocationError>(e),
        },
{
    let within = path_starts_with(raw, home);
    clean_path_from(raw, home, within)
}

/// The screenshot directory: the location the screenshot tool reported,
/// trimmed and understood, or `desktop` when there is none or it cannot be
/// understood.
pub fn choose_screenshot_dir(reported: Option<&str>, home: &str, desktop: String) -> (r: String)
    ensures
        r@ == screenshot_dir_of(
            match reported {
                Some(s) => Some(s@),
                None => None,
            },
            home@,
            desktop@,
        ),
{
    match reported {
        None => desktop,
        Some(out) => {
            let raw = trim(out);
            match get_clean_path(raw.as_str(), home) {
                Ok(p) => p,
                Err(_) => desktop,
            }
        },
    }
}

} // verus!
