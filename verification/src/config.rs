//! Where the library's files live. Nothing here looks at the environment: the
//! caller hands in what it found there.

use vstd::prelude::*;
use vstd::string::StringExecFns;

verus! {

/// The path of `name` taken from the directory `dir`, with `/` as the
/// separator: `name` itself where it starts at the root or `dir` is empty;
/// else `dir` and `name`, with one separator between them unless `dir` ends
/// in one.
pub open spec fn joined_path(dir: Seq<char>, name: Seq<char>) -> Seq<char> {
    if name.len() > 0 && name[0] == '/' {
        name
    } else if dir.len() == 0 || dir.last() == '/' {
        dir + name
    } else {
        dir + "/"@ + name
    }
}

/// The path of `name` taken from the directory `dir`.
pub fn join_path(dir: &str, name: &str) -> (path: String)
    ensures
        path@ == joined_path(dir@, name@),
{
    if name.unicode_len() > 0 && name.get_char(0) == '/' {
        return name.to_string();
    }
    let mut path = dir.to_string();
    let n: usize = dir.unicode_len();
    if n > 0 && dir.get_char(n - 1) != '/' {
        path.append("/");
    }
    path.append(name);
    proof {
        assert(Seq::<char>::empty() + name@ =~= name@);
    }
    path
}

/// The directory named `leaf` for this tool: below `home`'s hidden directory
/// `hidden` where a home is given, else the platform's own directory.
pub open spec fn resolved_dir(
    home: Option<Seq<char>>,
    hidden: Seq<char>,
    platform: Option<Seq<char>>,
) -> Option<Seq<char>> {
    match home {
        Some(h) => Some(joined_path(joined_path(h, hidden), "jfp"@)),
        None => platform,
    }
}

/// The view of an optional borrowed string.
pub open spec fn opt_str(o: Option<&str>) -> Option<Seq<char>> {
    match o {
        Some(s) => Some(s@),
        None => None,
    }
}

fn resolve(home: Option<&str>, hidden: &str, platform: Option<&str>) -> (dir: Option<String>)
    ensures
        crate::text::opt_text(dir) == resolved_dir(opt_str(home), hidden@, opt_str(platform)),
{
    match home {
        Some(h) => {
            let below = join_path(h, hidden);
            Some(join_path(below.as_str(), "jfp"))
        },
        None => match platform {
            Some(p) => Some(p.to_string()),
            None => None,
        },
    }
}

/// The configuration directory: `.config/jfp` below `home_override` where one
/// is given, else `platform_dir`, the directory that the platform provides
/// for configuration, if it provides one.
pub fn config_dir(home_override: Option<&str>, platform_dir: Option<&str>) -> (dir: Option<String>)
    ensures
        crate::text::opt_text(dir) == resolved_dir(
            opt_str(home_override),
            ".config"@,
            opt_str(platform_dir),
        ),
{
    resolve(home_override, ".config", platform_dir)
}

/// The cache directory: `.cache/jfp` below `home_override` where one is
/// given, else `platform_dir`, the directory that the platform provides for
/// caches, if it provides one.
pub fn cache_dir(home_override: Option<&str>, platform_dir: Option<&str>) -> (dir: Option<String>)
    ensures
        crate::text::opt_text(dir) == resolved_dir(
            opt_str(home_override),
            ".cache"@,
            opt_str(platform_dir),
        ),
{
    resolve(home_override, ".cache", platform_dir)
}

/// The path of the file `name` in `dir`, or in the working directory where no
/// directory is known.
pub open spec fn file_in(dir: Option<Seq<char>>, name: Seq<char>) -> Seq<char> {
    match dir {
        Some(d) => joined_path(d, name),
        None => joined_path("."@, name),
    }
}

/// The path of the file `name` in `dir`, or in the working directory where no
/// directory is known.
pub fn path_in(dir: Option<&str>, name: &str) -> (path: String)
    ensures
        path@ == file_in(opt_str(dir), name@),
{
    match dir {
        Some(d) => join_path(d, name),
        None => join_path(".", name),
    }
}

} // verus!
