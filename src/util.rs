use vstd::prelude::*;
use vstd::string::StringExecFns;

verus! {

/// `dir` and `name` joined by one `/`, which is left out when `dir` is empty or
/// already ends with one.
pub open spec fn joined_path(dir: Seq<char>, name: Seq<char>) -> Seq<char> {
    if dir.len() == 0 || dir.last() == '/' {
        dir + name
    } else {
        dir + seq!['/'] + name
    }
}

/// The path of the library file `libname` in the directory `path`.
pub fn get_libpath(path: &str, libname: &str) -> (r: String)
    ensures
        r@ == joined_path(path@, libname@),
{
    let n = path.unicode_len();
    let mut r = String::from_str(path);
    if n > 0 && path.get_char(n - 1) != '/' {
        proof {
            reveal_strlit("/");
        }
        r.append("/");
    }
    r.append(libname);
    r
}

} // verus!
