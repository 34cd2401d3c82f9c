//! Paths as text. Paths here are canonical: absolute, `/`-separated, with no
//! trailing, repeated, `.` or `..` component.
use vstd::prelude::*;
use crate::text::same_text;

verus! {

/// The directory, under a repository and under the home directory, that holds
/// this tool's files.
pub const CONFIG_DIR: &'static str = ".solo";

/// The position of the last `c` in `s`, or -1.
pub open spec fn last_index(s: Seq<char>, c: char) -> int
    decreases s.len(),
{
    if s.len() == 0 {
        -1
    } else if s.last() == c {
        s.len() - 1
    } else {
        last_index(s.drop_last(), c)
    }
}

proof fn lemma_last_index_bounds(s: Seq<char>, c: char)
    ensures
        -1 <= last_index(s, c) < s.len(),
        last_index(s, c) >= 0 ==> s[last_index(s, c)] == c,
    decreases s.len(),
{
    if s.len() > 0 && s.last() != c {
        lemma_last_index_bounds(s.drop_last(), c);
    }
}

pub fn last_index_of(s: &str, c: char) -> (r: Option<usize>)
    ensures
        r matches Some(i) ==> i == last_index(s@, c),
        r is None ==> last_index(s@, c) == -1,
{
    let n = s.unicode_len();
    let mut i = n;
    assert(s@.subrange(0, n as int) == s@);
    while i > 0
        invariant
            i <= n,
            n == s@.len(),
            last_index(s@, c) == last_index(s@.subrange(0, i as int), c),
        decreases i,
    {
        assert(s@.subrange(0, i as int).drop_last() == s@.subrange(0, i - 1));
        if s.get_char(i - 1) == c {
            return Some(i - 1);
        }
        i = i - 1;
    }
    None
}

/// The last component of a path.
pub open spec fn file_name(p: Seq<char>) -> Seq<char> {
    p.subrange(last_index(p, '/') + 1, p.len() as int)
}

/// `Path::file_stem`: none for an empty, `.` or `..` name; the whole name when
/// its only dot leads; otherwise what stands before the last dot.
pub open spec fn file_stem_spec(p: Seq<char>) -> Option<Seq<char>> {
    let n = file_name(p);
    if n.len() == 0 || n == "."@ || n == ".."@ {
        None
    } else if last_index(n, '.') <= 0 {
        Some(n)
    } else {
        Some(n.subrange(0, last_index(n, '.')))
    }
}

/// `Path::parent`: none for the empty path and the root; the root for a
/// component under it; the empty path for a single relative component.
pub open spec fn parent_spec(p: Seq<char>) -> Option<Seq<char>> {
    if p.len() == 0 || p == "/"@ {
        None
    } else if last_index(p, '/') < 0 {
        Some(Seq::empty())
    } else if last_index(p, '/') == 0 {
        Some("/"@)
    } else {
        Some(p.subrange(0, last_index(p, '/')))
    }
}

/// The directory two levels above a path.
pub open spec fn grandparent_spec(p: Seq<char>) -> Option<Seq<char>> {
    match parent_spec(p) {
        Some(q) => parent_spec(q),
        None => None,
    }
}

/// `Path::join` with a relative path.
pub open spec fn join_spec(base: Seq<char>, rel: Seq<char>) -> Seq<char> {
    if base.len() == 0 {
        rel
    } else if base.last() == '/' {
        base + rel
    } else {
        base + "/"@ + rel
    }
}

pub fn file_stem(p: &str) -> (r: Option<String>)
    ensures
        r matches Some(s) ==> file_stem_spec(p@) == Some(s@),
        r is None ==> file_stem_spec(p@) is None,
{
    let n = p.unicode_len();
    proof {
        lemma_last_index_bounds(p@, '/');
    }
    let start = match last_index_of(p, '/') {
        Some(i) => i + 1,
        None => 0,
    };
    let name = p.substring_char(start, n);
    proof {
        reveal_strlit(".");
        reveal_strlit("..");
    }
    if name.unicode_len() == 0 || same_text(name, ".") || same_text(name, "..") {
        return None;
    }
    proof {
        lemma_last_index_bounds(name@, '.');
    }
    match last_index_of(name, '.') {
        Some(d) if d > 0 => Some(String::from_str(name.substring_char(0, d))),
        _ => Some(String::from_str(name)),
    }
}

pub fn parent(p: &str) -> (r: Option<String>)
    ensures
        r matches Some(s) ==> parent_spec(p@) == Some(s@),
        r is None ==> parent_spec(p@) is None,
{
    proof {
        reveal_strlit("/");
        lemma_last_index_bounds(p@, '/');
    }
    if p.unicode_len() == 0 || same_text(p, "/") {
        return None;
    }
    match last_index_of(p, '/') {
        None => Some(String::new()),
        Some(0) => Some(String::from_str("/")),
        Some(i) => Some(String::from_str(p.substring_char(0, i))),
    }
}

/// The repository of a descriptor: the directory two levels above it.
pub fn repo_path_for(p: &str) -> (r: Option<String>)
    ensures
        r matches Some(s) ==> grandparent_spec(p@) == Some(s@),
        r is None ==> grandparent_spec(p@) is None,
{
    match parent(p) {
        Some(q) => parent(q.as_str()),
        None => None,
    }
}

pub fn join(base: &str, rel: &str) -> (r: String)
    ensures
        r@ == join_spec(base@, rel@),
{
    let n = base.unicode_len();
    let mut r = String::from_str(base);
    if n > 0 && base.get_char(n - 1) != '/' {
        r.append("/");
    }
    r.append(rel);
    proof {
        reveal_strlit("/");
    }
    r
}

/// `<name><ext>`.
pub fn with_extension(name: &str, ext: &str) -> (r: String)
    ensures
        r@ == name@ + ext@,
{
    let mut r = String::from_str(name);
    r.append(ext);
    r
}

/// The base directory of this tool's own files under a home directory.
pub open spec fn base_dir_spec(home: Seq<char>) -> Seq<char> {
    join_spec(home, CONFIG_DIR@)
}

/// Where the registry of services is kept.
pub open spec fn registry_path_spec(base: Seq<char>) -> Seq<char> {
    join_spec(base, "registry.json"@)
}

/// Where the output of a detached service is appended.
pub open spec fn log_path_spec(base: Seq<char>, name: Seq<char>) -> Seq<char> {
    join_spec(join_spec(base, "log"@), name + ".log"@)
}

/// Where the run record of a service is kept.
pub open spec fn run_path_spec(base: Seq<char>, name: Seq<char>) -> Seq<char> {
    join_spec(join_spec(base, "run"@), name + ".json"@)
}

/// Where the descriptor of a service lies within its repository.
pub open spec fn descriptor_path_spec(repo: Seq<char>, name: Seq<char>) -> Seq<char> {
    join_spec(join_spec(repo, CONFIG_DIR@), name + ".json"@)
}

pub fn base_dir(home: &str) -> (r: String)
    ensures
        r@ == base_dir_spec(home@),
{
    join(home, CONFIG_DIR)
}

pub fn registry_path(base: &str) -> (r: String)
    ensures
        r@ == registry_path_spec(base@),
{
    join(base, "registry.json")
}

pub fn log_path(base: &str, name: &str) -> (r: String)
    ensures
        r@ == log_path_spec(base@, name@),
{
    let dir = join(base, "log");
    join(dir.as_str(), with_extension(name, ".log").as_str())
}

pub fn run_path(base: &str, name: &str) -> (r: String)
    ensures
        r@ == run_path_spec(base@, name@),
{
    let dir = join(base, "run");
    join(dir.as_str(), with_extension(name, ".json").as_str())
}

pub fn descriptor_path(repo: &str, name: &str) -> (r: String)
    ensures
        r@ == descriptor_path_spec(repo@, name@),
{
    let dir = join(repo, CONFIG_DIR);
    join(dir.as_str(), with_extension(name, ".json").as_str())
}

/// Where the descriptor of service `svc` lies in the repository `cwd`.
pub fn find_svc_config(svc: &str, cwd: &str) -> (r: String)
    ensures
        r@ == descriptor_path_spec(cwd@, svc@),
{
    descriptor_path(cwd, svc)
}

} // verus!
