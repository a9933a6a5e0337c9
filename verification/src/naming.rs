//! Where a capture is stored: a file in the home directory, named by the
//! time at which it was made.

use vstd::prelude::*;
use vstd::string::*;

verus! {

/// The path of a capture: the home directory, a slash, the time stamp, a dot
/// and the extension.
pub open spec fn output_path_text(
    home: Seq<char>,
    stamp: Seq<char>,
    extension: Seq<char>,
) -> Seq<char> {
    home + seq!['/'] + stamp + seq!['.'] + extension
}

/// Puts the path of a capture together from its parts.
pub fn compose_output_path(home: &str, stamp: &str, extension: &str) -> (path: String)
    ensures
        path@ == output_path_text(home@, stamp@, extension@),
{
    let mut path = String::from_str(home);
    path.append("/");
    path.append(stamp);
    path.append(".");
    path.append(extension);
    proof {
        reveal_strlit("/");
        reveal_strlit(".");
        assert(path@ =~= output_path_text(home@, stamp@, extension@));
    }
    path
}

/// `dirs::home_dir`, with the path as a string. Which directory comes back,
/// and whether one does, depends on the environment and the user database, so
/// nothing is claimed of the result. A path that is not valid UTF-8 has no
/// string and comes back as `None`.
#[verifier::external_body]
fn home_directory() -> (home: Option<String>) {
    match dirs::home_dir() {
        Some(path) => path.into_os_string().into_string().ok(),
        None => None,
    }
}

/// `chrono::Local::now`, written out by `DateTime::to_rfc3339`. The result
/// depends on the clock and the time zone of the machine, so nothing is
/// claimed of it. chrono reads a clock that stands at or after the start of
/// 1970.
#[verifier::external_body]
fn local_timestamp() -> (stamp: String) {
    chrono::Local::now().to_rfc3339()
}

/// The path of a capture, where there is a home directory to store it in.
pub open spec fn output_path_in_text(
    home: Option<String>,
    stamp: Seq<char>,
    extension: Seq<char>,
) -> Option<Seq<char>> {
    match home {
        Some(home) => Some(output_path_text(home@, stamp, extension)),
        None => None,
    }
}

/// The view of a string that may be absent.
pub open spec fn optional_text(s: Option<String>) -> Option<Seq<char>> {
    match s {
        Some(s) => Some(s@),
        None => None,
    }
}

/// The path of a capture made at `stamp`, or `None` where there is no home
/// directory.
pub fn output_path_in(home: &Option<String>, stamp: &str, extension: &str) -> (path: Option<String>)
    ensures
        optional_text(path) == output_path_in_text(*home, stamp@, extension@),
{
    match home {
        Some(home) => Some(compose_output_path(home.as_str(), stamp, extension)),
        None => None,
    }
}

/// The path under which a capture made now is stored, or `None` where no home
/// directory can be found. Whatever the home directory and the time are, the
/// path is put together from them as `output_path_in` does.
pub fn output_path(extension: &str) -> (path: Option<String>)
    ensures
        exists|home: Option<String>, stamp: Seq<char>|
            optional_text(path) == #[trigger] output_path_in_text(home, stamp, extension@),
{
    let home = home_directory();
    let stamp = local_timestamp();
    output_path_in(&home, stamp.as_str(), extension)
}

} // verus!
