//! Where the user's home directory is.

use vstd::prelude::*;

verus! {

/// Calls `directories::UserDirs::new` and `home_dir` on its result: the
/// path of the user's home directory, or `None` where the system names none
/// or the path is not valid Unicode. The answer depends on the machine and
/// the user, so nothing is claimed of it.
#[verifier::external_body]
pub(crate) fn home_dir() -> (r: Option<String>) {
    let dirs = directories::UserDirs::new()?;
    Some(dirs.home_dir().to_str()?.to_owned())
}

/// The path of the file `name` in the directory `dir`: the two are joined
/// by one `/`, and by none where `dir` is empty or ends in one already.
pub open spec fn file_under_view(dir: Seq<char>, name: Seq<char>) -> Seq<char> {
    if dir.len() > 0 && dir.last() != '/' {
        dir + "/"@ + name
    } else {
        dir + name
    }
}

/// The path of the file `name` in the directory `dir`.
pub fn file_under(dir: &str, name: &str) -> (r: String)
    ensures
        r@ == file_under_view(dir@, name@),
{
    let n = dir.unicode_len();
    let mut path = String::from_str(dir);
    if n > 0 && dir.get_char(n - 1) != '/' {
        path.append("/");
    }
    path.append(name);
    path
}

} // verus!
