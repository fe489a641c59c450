//! Download addresses of packages.

use vstd::prelude::*;
use vstd::string::*;

verus! {

/// The address of the archive of `project` on the host `web`: the host, a
/// slash, the package's name as a directory, a slash, and the name again as the
/// stem of a `.zip` file.
pub open spec fn link_of(web: Seq<char>, project: Seq<char>) -> Seq<char> {
    web + seq!['/'] + project + seq!['/'] + project + seq!['.', 'z', 'i', 'p']
}

/// Builds the download address of the package `project` on the host `web`.
pub fn generate_link(web: String, project: String) -> (link: String)
    ensures
        link@ == link_of(web@, project@),
{
    let mut link = web;
    proof {
        reveal_strlit("/");
        reveal_strlit(".zip");
    }
    link.append("/");
    link.append(project.as_str());
    link.append("/");
    link.append(project.as_str());
    link.append(".zip");
    assert("/"@ =~= seq!['/']);
    assert(".zip"@ =~= seq!['.', 'z', 'i', 'p']);
    link
}

} // verus!
