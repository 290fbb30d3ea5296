use vstd::prelude::*;

verus! {

/// The directory that contains a path, as std's path parsing sees it.
pub uninterp spec fn parent_of(p: Seq<char>) -> Option<Seq<char>>;

/// The final component of a path, as std's path parsing sees it.
pub uninterp spec fn file_name_of(p: Seq<char>) -> Option<Seq<char>>;

/// A path with a further component adjoined, as std's path joining forms it.
pub uninterp spec fn joined_path(dir: Seq<char>, name: Seq<char>) -> Seq<char>;

/// Relies on std::path::Path::parent: the path without its final component.
/// What remains is a part of the original text with a component removed, so
/// it is shorter.
#[verifier::external_body]
fn parent(p: &str) -> (r: Option<String>)
    ensures
        opt_view(r) == parent_of(p@),
        r matches Some(q) ==> q@.len() < p@.len(),
{
    std::path::Path::new(p).parent().and_then(|q| q.to_str()).map(|q| q.to_string())
}

/// Relies on std::path::Path::file_name: the final component of the path.
#[verifier::external_body]
fn file_name(p: &str) -> (r: Option<String>)
    ensures
        opt_view(r) == file_name_of(p@),
{
    std::path::Path::new(p).file_name().and_then(|n| n.to_str()).map(|n| n.to_string())
}

/// Relies on std::path::Path::join: the directory with `name` adjoined.
#[verifier::external_body]
fn join(dir: &str, name: &str) -> (r: String)
    ensures
        r@ == joined_path(dir@, name@),
{
    std::path::Path::new(dir).join(name).to_string_lossy().into_owned()
}

/// Relies on std::path::Path::exists: whether something is on disk at the
/// path now. Nothing is promised of the answer.
#[verifier::external_body]
fn exists_on_disk(p: &str) -> (r: bool) {
    std::path::Path::new(p).exists()
}

/// The text of an optional string.
pub open spec fn opt_view(o: Option<String>) -> Option<Seq<char>> {
    match o {
        Some(s) => Some(s@),
        None => None,
    }
}

/// The successive parent directories of `p`, nearest first, following at
/// most `fuel` steps.
pub open spec fn ancestry(p: Seq<char>, fuel: nat) -> Seq<Seq<char>>
    decreases fuel,
{
    if fuel == 0 {
        Seq::empty()
    } else {
        match parent_of(p) {
            Some(q) => seq![q] + ancestry(q, (fuel - 1) as nat),
            None => Seq::empty(),
        }
    }
}

/// The ancestor directories of `p`, from its own directory up to the root.
/// Each step shortens the path, so `p.len() + 1` steps reach the end.
pub open spec fn ancestors_of(p: Seq<char>) -> Seq<Seq<char>> {
    ancestry(p, p.len() + 1)
}

/// The name of the first directory in `dirs`, from index `k` on, whose flag
/// in `marked` is set; absent if there is none or that directory has no name.
pub open spec fn first_marked(dirs: Seq<Seq<char>>, marked: Seq<bool>, k: int) -> Option<
    Seq<char>,
>
    decreases dirs.len() - k,
{
    if k < 0 || k >= dirs.len() || k >= marked.len() {
        None
    } else if marked[k] {
        file_name_of(dirs[k])
    } else {
        first_marked(dirs, marked, k + 1)
    }
}

/// The ancestor directories of `path`, nearest first.
pub fn ancestors(path: &str) -> (r: Vec<String>)
    ensures
        r@.map_values(|s: String| s@) == ancestors_of(path@),
{
    let mut out: Vec<String> = Vec::new();
    let mut cur = path.to_string();
    let ghost mut fuel: nat = (path@.len() + 1) as nat;
    proof {
        assert(out@.map_values(|s: String| s@) + ancestry(cur@, fuel) =~= ancestors_of(path@));
    }
    loop
        invariant
            fuel > cur@.len(),
            out@.map_values(|s: String| s@) + ancestry(cur@, fuel) == ancestors_of(path@),
        decreases cur@.len(),
    {
        match parent(cur.as_str()) {
            Some(q) => {
                let ghost prev = out@.map_values(|s: String| s@);
                let ghost old_cur = cur@;
                out.push(q.clone());
                proof {
                    assert(ancestry(old_cur, fuel) == seq![q@] + ancestry(q@, (fuel - 1) as nat));
                    assert(out@.map_values(|s: String| s@) =~= prev.push(q@));
                    assert(out@.map_values(|s: String| s@) + ancestry(q@, (fuel - 1) as nat)
                        =~= prev + ancestry(old_cur, fuel));
                    fuel = (fuel - 1) as nat;
                }
                cur = q;
            },
            None => {
                proof {
                    assert(ancestry(cur@, fuel) =~= Seq::empty());
                    assert(out@.map_values(|s: String| s@) =~= ancestors_of(path@));
                }
                return out;
            },
        }
    }
}

/// The project named by the first of `dirs` whose flag in `marked` is set:
/// that directory's own name.
pub fn project_name_given(dirs: &Vec<String>, marked: &Vec<bool>) -> (r: Option<String>)
    requires
        dirs@.len() == marked@.len(),
    ensures
        opt_view(r) == first_marked(dirs@.map_values(|s: String| s@), marked@, 0),
{
    let ghost names = dirs@.map_values(|s: String| s@);
    let mut k: usize = 0;
    while k < dirs.len()
        invariant
            dirs@.len() == marked@.len(),
            names == dirs@.map_values(|s: String| s@),
            k <= dirs@.len(),
            first_marked(names, marked@, 0) == first_marked(names, marked@, k as int),
        decreases dirs@.len() - k,
    {
        if marked[k] {
            return file_name(dirs[k].as_str());
        }
        k = k + 1;
    }
    None
}

/// The names of the files whose presence in a directory marks it as the root
/// of a project.
pub open spec fn project_markers() -> Seq<Seq<char>> {
    seq![".git"@, ".hg"@, ".svn"@, "Cargo.toml"@, "package.json"@, "pyproject.toml"@]
}

/// The paths at which a project marker of `dir` would stand, in the order
/// they are probed.
pub fn marker_paths(dir: &str) -> (r: Vec<String>)
    ensures
        r@.map_values(|s: String| s@) == project_markers().map_values(|m: Seq<char>| joined_path(dir@, m)),
{
    let mut r: Vec<String> = Vec::new();
    r.push(join(dir, ".git"));
    r.push(join(dir, ".hg"));
    r.push(join(dir, ".svn"));
    r.push(join(dir, "Cargo.toml"));
    r.push(join(dir, "package.json"));
    r.push(join(dir, "pyproject.toml"));
    assert(r@.map_values(|s: String| s@) =~= project_markers().map_values(|m: Seq<char>| joined_path(dir@, m)));
    r
}

/// Whether one of the marker paths of `dir` is on disk now.
fn has_marker(dir: &str) -> bool {
    let candidates = marker_paths(dir);
    let mut i: usize = 0;
    while i < candidates.len()
        decreases candidates@.len() - i,
    {
        if exists_on_disk(candidates[i].as_str()) {
            return true;
        }
        i = i + 1;
    }
    false
}

/// Infers the project of the file at `path`: walks its ancestor directories
/// outward and names the project after the first one that holds a project
/// marker. Which directories hold one is read from disk, so the result is
/// the one that some set of answers about the markers gives.
pub fn get_project_name(path: &str) -> (r: Option<String>)
    ensures
        exists|marked: Seq<bool>|
            marked.len() == ancestors_of(path@).len() && opt_view(r) == first_marked(
                ancestors_of(path@),
                marked,
                0,
            ),
{
    let dirs = ancestors(path);
    let mut marked: Vec<bool> = Vec::new();
    let mut found = false;
    while marked.len() < dirs.len()
        invariant
            marked@.len() <= dirs@.len(),
        decreases dirs@.len() - marked@.len(),
    {
        if found {
            marked.push(false);
        } else {
            found = has_marker(dirs[marked.len()].as_str());
            marked.push(found);
        }
    }
    let r = project_name_given(&dirs, &marked);
    assert(dirs@.map_values(|s: String| s@).len() == dirs@.len());
    r
}

} // verus!
