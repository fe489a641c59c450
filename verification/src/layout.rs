//! Where a project keeps its files, and where packages come from.

use vstd::prelude::*;
use vstd::string::*;

verus! {

/// The directory, at the project's root, that holds what packages extract to
/// and, while one is installed, its archive.
pub const MODULES_DIR: &'static str = "__modules__";

/// The manifest file, at the project's root.
pub const MANIFEST_FILE: &'static str = "__info__.json";

/// The host and path below which every package has its directory.
pub const PACKAGE_HOST: &'static str = "https://mrmineev.github.io/articles/hpm/packages";

/// The path of the transient archive of `package`: a `.zip` file named after
/// the package, in the modules directory.
pub open spec fn archive_path_of(package: Seq<char>) -> Seq<char> {
    MODULES_DIR@ + seq!['/'] + package + seq!['.', 'z', 'i', 'p']
}

/// Builds the path of the transient archive of `package`.
pub fn archive_path(package: &str) -> (path: String)
    ensures
        path@ == archive_path_of(package@),
{
    let mut path = MODULES_DIR.to_owned();
    proof {
        reveal_strlit("/");
        reveal_strlit(".zip");
    }
    path.append("/");
    path.append(package);
    path.append(".zip");
    assert("/"@ =~= seq!['/']);
    assert(".zip"@ =~= seq!['.', 'z', 'i', 'p']);
    path
}

} // verus!
