//! Where fetched tools are cached, and which entries of a package tarball are unpacked.
use vstd::prelude::*;
use crate::text::{chars_of, join_path, owned, path_join, push_all, string_from_chars};

verus! {

/// `dirs::cache_dir()` (`$XDG_CACHE_HOME`, else `~/.cache`), as a string. It reads the
/// environment, so nothing is stated of its result.
#[verifier::external_body]
fn cache_dir() -> (r: Option<String>)
{
    match dirs::cache_dir() {
        Some(p) => Some(p.to_string_lossy().into_owned()),
        None => None,
    }
}

/// `dirs::home_dir()`, as a string. It reads the environment, so nothing is stated of its
/// result.
#[verifier::external_body]
fn home_dir() -> (r: Option<String>)
{
    match dirs::home_dir() {
        Some(p) => Some(p.to_string_lossy().into_owned()),
        None => None,
    }
}

/// `Path::exists`: whether something is at `path`. It reads the file system, so nothing
/// is stated of its result.
#[verifier::external_body]
pub(crate) fn path_exists(path: &str) -> (r: bool)
{
    std::path::Path::new(path).exists()
}

/// The tool cache under the user's cache directory `cache` (else `home/.cache`, else
/// `./.cache`): `<base>/mantle/tooling`.
pub open spec fn cache_base_for(cache: Option<String>, home: Option<String>) -> Seq<char> {
    let base = match cache {
        Some(c) => c@,
        None => path_join(
            match home {
                Some(h) => h@,
                None => "."@,
            },
            ".cache"@,
        ),
    };
    path_join(path_join(base, "mantle"@), "tooling"@)
}

/// The tool cache for the given cache and home directories.
pub fn base_cache_dir_in(cache: Option<String>, home: Option<String>) -> (r: String)
    ensures
        r@ == cache_base_for(cache, home),
{
    let base = match cache {
        Some(c) => c,
        None => {
            let h = match home {
                Some(h) => h,
                None => owned("."),
            };
            join_path(&h, ".cache")
        },
    };
    let m = join_path(&base, "mantle");
    join_path(&m, "tooling")
}

/// `$XDG_CACHE_HOME/mantle/tooling` (or the equivalent under the home directory).
pub fn base_cache_dir() -> (r: String)
    ensures
        exists|cache: Option<String>, home: Option<String>| r@ == cache_base_for(cache, home),
{
    let cache = cache_dir();
    let home = if cache.is_none() {
        home_dir()
    } else {
        None
    };
    base_cache_dir_in(cache, home)
}

/// A package name made safe as a directory name: each `@` becomes `_at_`, then each `/`
/// becomes `_`.
pub open spec fn safe_name(pkg: Seq<char>) -> Seq<char>
    decreases pkg.len(),
{
    if pkg.len() == 0 {
        Seq::empty()
    } else {
        safe_name(pkg.drop_last()) + if pkg.last() == '@' {
            seq!['_', 'a', 't', '_']
        } else if pkg.last() == '/' {
            seq!['_']
        } else {
            seq![pkg.last()]
        }
    }
}

/// The safe directory name of a package.
pub fn safe_package_name(pkg: &str) -> (r: String)
    ensures
        r@ == safe_name(pkg@),
{
    let v = chars_of(pkg);
    let mut out: Vec<char> = Vec::new();
    let mut i: usize = 0;
    while i < v.len()
        invariant
            i <= v.len(),
            v@ == pkg@,
            out@ == safe_name(pkg@.take(i as int)),
        decreases v.len() - i,
    {
        proof {
            assert(pkg@.take(i + 1).drop_last() =~= pkg@.take(i as int));
        }
        let c = v[i];
        let ghost before = out@;
        if c == '@' {
            out.push('_');
            out.push('a');
            out.push('t');
            out.push('_');
        } else if c == '/' {
            out.push('_');
        } else {
            out.push(c);
        }
        proof {
            assert(out@ =~= safe_name(pkg@.take(i + 1)));
        }
        i += 1;
    }
    proof {
        assert(pkg@.take(v.len() as int) =~= pkg@);
    }
    string_from_chars(out.as_slice())
}

/// The cache directory of `pkg@version` under `base`: `<base>/<safe name>@<version>`.
pub open spec fn tool_dir_for(base: Seq<char>, pkg: Seq<char>, version: Seq<char>) -> Seq<char> {
    path_join(base, safe_name(pkg) + seq!['@'] + version)
}

/// The cache directory of `pkg@version` under `base`.
pub fn tool_dir_in(base: &str, pkg: &str, version: &str) -> (r: String)
    ensures
        r@ == tool_dir_for(base@, pkg@, version@),
{
    let safe = safe_package_name(pkg);
    let mut name = chars_of(&safe);
    name.push('@');
    let ver = chars_of(version);
    push_all(&mut name, ver.as_slice());
    let leaf = string_from_chars(name.as_slice());
    proof {
        assert(leaf@ =~= safe_name(pkg@) + seq!['@'] + version@);
    }
    join_path(base, &leaf)
}

/// The content-addressed cache directory of one tool version, under the tool cache.
/// Scoped names (`@scope/name`) are made safe as a single directory name.
pub fn tool_dir(pkg: &str, version: &str) -> (r: String)
    ensures
        exists|cache: Option<String>, home: Option<String>| r@ == tool_dir_for(
            cache_base_for(cache, home),
            pkg@,
            version@,
        ),
{
    let base = base_cache_dir();
    let r = tool_dir_in(&base, pkg, version);
    proof {
        let (c, h) = choose|c: Option<String>, h: Option<String>| base@ == cache_base_for(c, h);
        assert(r@ == tool_dir_for(cache_base_for(c, h), pkg@, version@));
    }
    r
}

/// The paths whose existence tells whether `pkg@version` is cached: its directory in the
/// tool cache, and the `.ok` sentinel in it.
pub fn cache_probe_paths(pkg: &str, version: &str) -> (r: (String, String))
    ensures
        exists|cache: Option<String>, home: Option<String>| r.0@ == tool_dir_for(
            cache_base_for(cache, home),
            pkg@,
            version@,
        ),
        r.1@ == path_join(r.0@, ".ok"@),
{
    let dir = tool_dir(pkg, version);
    let ok = join_path(&dir, ".ok");
    (dir, ok)
}

/// Whether a tool is cached, given whether its directory and its `.ok` sentinel exist.
pub fn cached_from(dir_exists: bool, ok_exists: bool) -> (r: bool)
    ensures
        r == (dir_exists && ok_exists),
{
    dir_exists && ok_exists
}

/// Whether `pkg@version` is fully cached: its directory (`cache_probe_paths().0`) exists
/// and holds the `.ok` sentinel (`cache_probe_paths().1`) written after a complete
/// extraction. Both are read from the file system.
pub fn is_cached(pkg: &str, version: &str) -> bool {
    let (dir, ok) = cache_probe_paths(pkg, version);
    let dir_exists = path_exists(&dir);
    let ok_exists = if dir_exists {
        path_exists(&ok)
    } else {
        false
    };
    cached_from(dir_exists, ok_exists)
}

/// Where the last stylesheet that compiled is kept in the tool cache `base`.
pub open spec fn last_good_for(base: Seq<char>) -> Seq<char> {
    path_join(base, "last-good.css"@)
}

/// Where the last stylesheet that compiled is kept in the tool cache `base`:
/// `<base>/last-good.css`.
pub fn last_good_path_in(base: &str) -> (r: String)
    ensures
        r@ == last_good_for(base@),
{
    join_path(base, "last-good.css")
}

/// Where the last stylesheet that compiled is kept: `last-good.css` in the tool cache.
pub fn last_good_path() -> (r: String)
    ensures
        exists|cache: Option<String>, home: Option<String>| r@ == last_good_for(
            cache_base_for(cache, home),
        ),
{
    let base = base_cache_dir();
    last_good_path_in(&base)
}

proof fn lemma_safe_name_chars(pkg: Seq<char>)
    ensures
        forall|i: int| 0 <= i < safe_name(pkg).len() ==> safe_name(pkg)[i] != '/' && safe_name(pkg)[i]
            != '@',
        pkg.len() > 0 ==> safe_name(pkg).len() > 0,
    decreases pkg.len(),
{
    if pkg.len() > 0 {
        lemma_safe_name_chars(pkg.drop_last());
        let a = safe_name(pkg.drop_last());
        let b = if pkg.last() == '@' {
            seq!['_', 'a', 't', '_']
        } else if pkg.last() == '/' {
            seq!['_']
        } else {
            seq![pkg.last()]
        };
        assert forall|i: int| 0 <= i < (a + b).len() implies (a + b)[i] != '/' && (a + b)[i] != '@' by {
            if i >= a.len() {
                assert((a + b)[i] == b[i - a.len()]);
            }
        }
    }
}

/// The cache's layout for one tool cache `base`: every tool version has its own
/// directory directly in `base`, named by the package made safe (no `/`, no `@`, and not
/// empty for a named package), `@` and the version; `last-good.css` sits beside them.
pub proof fn lemma_cache_layout(base: Seq<char>, pkg: Seq<char>, version: Seq<char>)
    ensures
        tool_dir_for(base, pkg, version) == path_join(base, safe_name(pkg) + seq!['@'] + version),
        last_good_for(base) == path_join(base, "last-good.css"@),
        forall|i: int| 0 <= i < safe_name(pkg).len() ==> safe_name(pkg)[i] != '/' && safe_name(pkg)[i]
            != '@',
        pkg.len() > 0 ==> safe_name(pkg).len() > 0,
{
    lemma_safe_name_chars(pkg);
}

/// One component of a tarball entry's path.
#[derive(Debug, Clone, PartialEq, Eq)]
pub enum PathPart {
    /// The root `/` of an absolute path.
    RootDir,
    /// `.`
    CurDir,
    /// `..`
    ParentDir,
    /// A name.
    Normal(String),
}

/// Whether a component is the name `package`.
pub open spec fn is_package_dir(p: PathPart) -> bool {
    p matches PathPart::Normal(n) && n@ == "package"@
}

/// Whether a path climbs with `..` somewhere.
pub open spec fn climbs(parts: Seq<PathPart>) -> bool {
    exists|i: int| 0 <= i < parts.len() && #[trigger] parts[i] == PathPart::ParentDir
}

/// The entry's path without the `package/` root, when it has one.
pub open spec fn without_package_root(parts: Seq<PathPart>) -> Seq<PathPart> {
    if parts.len() > 0 && is_package_dir(parts[0]) {
        parts.skip(1)
    } else {
        parts
    }
}

/// Where a tarball entry goes, relative to the destination: its path without the
/// `package/` root all npm tarballs have; `None` (skipped) when that is absolute, climbs
/// with `..`, or is empty.
pub open spec fn entry_target(parts: Seq<PathPart>) -> Option<Seq<PathPart>> {
    let rel = without_package_root(parts);
    if rel.len() > 0 && rel[0] == PathPart::RootDir {
        None
    } else if climbs(rel) {
        None
    } else if rel.len() == 0 {
        None
    } else {
        Some(rel)
    }
}

fn is_package(p: &PathPart) -> (r: bool)
    ensures
        r == is_package_dir(*p),
{
    match p {
        PathPart::Normal(n) => crate::text::str_eq(n, "package"),
        _ => false,
    }
}

fn copy_part(p: &PathPart) -> (r: PathPart)
    ensures
        r == *p,
{
    match p {
        PathPart::RootDir => PathPart::RootDir,
        PathPart::CurDir => PathPart::CurDir,
        PathPart::ParentDir => PathPart::ParentDir,
        PathPart::Normal(n) => PathPart::Normal(n.clone()),
    }
}

/// Nothing unpacked leaves the tool's directory: an entry that is kept has a non-empty
/// relative path that never climbs to a parent directory.
pub proof fn lemma_entry_stays_inside(parts: Seq<PathPart>)
    ensures
        entry_target(parts) matches Some(rel) ==> rel.len() > 0 && rel[0] != PathPart::RootDir
            && forall|i: int| 0 <= i < rel.len() ==> rel[i] != PathPart::ParentDir,
{
}

/// Where a tarball entry goes, given the components of its path; `None` to skip it.
pub fn safe_entry_path(parts: &Vec<PathPart>) -> (r: Option<Vec<PathPart>>)
    ensures
        match r {
            Some(v) => entry_target(parts@) == Some(v@),
            None => entry_target(parts@) is None,
        },
{
    let start: usize = if parts.len() > 0 && is_package(&parts[0]) {
        1
    } else {
        0
    };
    let ghost rel = without_package_root(parts@);
    proof {
        assert(rel =~= parts@.skip(start as int));
    }
    let mut out: Vec<PathPart> = Vec::new();
    let mut i: usize = start;
    while i < parts.len()
        invariant
            start <= i <= parts.len(),
            rel == parts@.skip(start as int),
            rel == without_package_root(parts@),
            out@ == parts@.subrange(start as int, i as int),
            forall|k: int| start <= k < i ==> parts@[k] != PathPart::ParentDir,
            start < i ==> parts@[start as int] != PathPart::RootDir,
        decreases parts.len() - i,
    {
        let p = &parts[i];
        match p {
            PathPart::ParentDir => {
                proof {
                    assert(parts@[i as int] == PathPart::ParentDir);
                    assert(rel[i - start] == PathPart::ParentDir);
                    assert(climbs(rel));

                }
                return None;
            },
            PathPart::RootDir => {
                if i == start {
                    proof {
                        assert(parts@[i as int] == PathPart::RootDir);
                        assert(rel[0] == PathPart::RootDir);
                    }
                    return None;
                }
            },
            _ => {},
        }
        out.push(copy_part(p));
        proof {
            assert(out@ =~= parts@.subrange(start as int, i + 1));
        }
        i += 1;
    }
    if out.len() == 0 {
        return None;
    }
    proof {
        assert(out@ =~= rel);
        assert forall|k: int| 0 <= k < rel.len() implies #[trigger] rel[k] != PathPart::ParentDir by {
            assert(rel[k] == parts@[k + start]);
        }
        assert(!climbs(rel));
    }
    Some(out)
}

} // verus!
