//! Resolution of the backend entry point across install layouts.
//!
//! A filesystem path is modelled as its components, root first; the shell
//! joins them with the platform separator, and a `".."` component names
//! the parent directory, as it does on disk. The shell performs the
//! existence probes and hands the answers to `resolve`.

use vstd::prelude::*;

verus! {

/// The components of a path, each mapped to its character view.
pub open spec fn path_view(p: Seq<String>) -> Seq<Seq<char>> {
    p.map_values(|s: String| s@)
}

/// Name of the backend's launch script.
pub open spec fn entry_file_spec() -> Seq<char> {
    "run_server.py"@
}

/// The packaged-layout directory candidates, in probe order: a
/// `resources/src` folder beside the executable, then a bundle-style
/// `Resources/resources/src` folder one level above it.
pub open spec fn packaged_dir_spec(exe_dir: Seq<Seq<char>>, which: int) -> Seq<Seq<char>> {
    if which == 0 {
        exe_dir + seq!["resources"@, "src"@]
    } else {
        exe_dir + seq![".."@, "Resources"@, "resources"@, "src"@]
    }
}

/// The parent of a path: one component removed, or the path itself when
/// it has no components left (popping past the root is a no-op).
pub open spec fn parent_spec(p: Seq<Seq<char>>) -> Seq<Seq<char>> {
    if p.len() > 0 {
        p.drop_last()
    } else {
        p
    }
}

/// The project root assumed by the development layout: two levels above
/// the shell's working directory.
pub open spec fn dev_root_spec(cwd: Seq<Seq<char>>) -> Seq<Seq<char>> {
    parent_spec(parent_spec(cwd))
}

/// Where the backend's launch script and working directory lie once
/// resolved. Recomputed on every start attempt, never cached.
#[derive(Debug)]
pub struct ResolvedEntryPoint {
    pub entry_point: Vec<String>,
    pub working_dir: Vec<String>,
}

/// The only fatal resolution outcome: no entry point in any known layout.
#[derive(Clone, Copy, PartialEq, Eq, Structural, Debug)]
pub enum PathResolutionError {
    NotFound,
}

/// Copies a path, component by component.
pub fn clone_path(p: &Vec<String>) -> (r: Vec<String>)
    ensures
        r@ == p@,
{
    let mut r: Vec<String> = Vec::new();
    let mut i: usize = 0;
    while i < p.len()
        invariant
            i <= p.len(),
            r@.len() == i,
            forall|j: int| 0 <= j < i ==> r@[j] == p@[j],
        decreases p.len() - i,
    {
        r.push(p[i].clone());
        i += 1;
    }
    proof {
        assert(r@ =~= p@);
    }
    r
}

/// Builds the packaged-layout candidates for the directory that holds
/// the running executable.
pub fn packaged_candidates(exe_dir: &Vec<String>) -> (r: Vec<Vec<String>>)
    ensures
        r@.len() == 2,
        path_view(r@[0]@) == packaged_dir_spec(path_view(exe_dir@), 0),
        path_view(r@[1]@) == packaged_dir_spec(path_view(exe_dir@), 1),
{
    let mut beside = clone_path(exe_dir);
    beside.push("resources".to_owned());
    beside.push("src".to_owned());
    let mut bundle = clone_path(exe_dir);
    bundle.push("..".to_owned());
    bundle.push("Resources".to_owned());
    bundle.push("resources".to_owned());
    bundle.push("src".to_owned());
    proof {
        assert(path_view(beside@) =~= packaged_dir_spec(path_view(exe_dir@), 0));
        assert(path_view(bundle@) =~= packaged_dir_spec(path_view(exe_dir@), 1));
    }
    let mut r: Vec<Vec<String>> = Vec::new();
    r.push(beside);
    r.push(bundle);
    r
}

/// Builds the development-tree layout: from the shell's working
/// directory, walk up two levels to the assumed project root; the entry
/// point is `src/run_server.py` under it, run from that `src` folder.
pub fn dev_layout(cwd: &Vec<String>) -> (r: ResolvedEntryPoint)
    ensures
        path_view(r.working_dir@) == dev_root_spec(path_view(cwd@)) + seq!["src"@],
        path_view(r.entry_point@) == dev_root_spec(path_view(cwd@)) + seq!["src"@, entry_file_spec()],
{
    let mut root = clone_path(cwd);
    if root.len() > 0 {
        root.pop();
    }
    proof {
        assert(path_view(root@) =~= parent_spec(path_view(cwd@)));
    }
    let ghost up_one = path_view(root@);
    if root.len() > 0 {
        root.pop();
    }
    proof {
        assert(path_view(root@) =~= parent_spec(up_one));
    }
    let mut working_dir = root;
    working_dir.push("src".to_owned());
    let mut entry_point = clone_path(&working_dir);
    entry_point.push("run_server.py".to_owned());
    proof {
        assert(path_view(working_dir@) =~= dev_root_spec(path_view(cwd@)) + seq!["src"@]);
        assert(path_view(entry_point@) =~= dev_root_spec(path_view(cwd@)) + seq![
            "src"@,
            entry_file_spec(),
        ]);
    }
    ResolvedEntryPoint { entry_point, working_dir }
}

/// Picks the backend entry point from the probe answers: the first
/// packaged candidate directory that exists wins; otherwise the
/// development layout, provided its entry point file exists; otherwise
/// resolution fails. `packaged_exists` answers, in order, whether each
/// directory of `packaged_candidates(exe_dir)` exists on disk;
/// `dev_entry_exists` answers whether the development entry point file
/// exists.
pub fn resolve(
    exe_dir: &Vec<String>,
    cwd: &Vec<String>,
    packaged_exists: &Vec<bool>,
    dev_entry_exists: bool,
) -> (r: Result<ResolvedEntryPoint, PathResolutionError>)
    requires
        packaged_exists@.len() == 2,
    ensures
        packaged_exists@[0] ==> (r matches Ok(ep)
            && path_view(ep.working_dir@) == packaged_dir_spec(path_view(exe_dir@), 0)
            && path_view(ep.entry_point@) == packaged_dir_spec(path_view(exe_dir@), 0).push(
            entry_file_spec(),
        )),
        !packaged_exists@[0] && packaged_exists@[1] ==> (r matches Ok(ep)
            && path_view(ep.working_dir@) == packaged_dir_spec(path_view(exe_dir@), 1)
            && path_view(ep.entry_point@) == packaged_dir_spec(path_view(exe_dir@), 1).push(
            entry_file_spec(),
        )),
        !packaged_exists@[0] && !packaged_exists@[1] && dev_entry_exists ==> (r matches Ok(ep)
            && path_view(ep.working_dir@) == dev_root_spec(path_view(cwd@)) + seq!["src"@]
            && path_view(ep.entry_point@) == dev_root_spec(path_view(cwd@)) + seq![
            "src"@,
            entry_file_spec(),
        ]),
        !packaged_exists@[0] && !packaged_exists@[1] && !dev_entry_exists ==> (r matches Err(e)
            && e == PathResolutionError::NotFound),
{
    let flag_beside = packaged_exists[0];
    let flag_bundle = packaged_exists[1];
    if flag_beside || flag_bundle {
        let candidates = packaged_candidates(exe_dir);
        let which: usize = if flag_beside {
            0
        } else {
            1
        };
        let working_dir = clone_path(&candidates[which]);
        let mut entry_point = clone_path(&working_dir);
        entry_point.push("run_server.py".to_owned());
        proof {
            assert(path_view(entry_point@) =~= path_view(working_dir@).push(entry_file_spec()));
        }
        Ok(ResolvedEntryPoint { entry_point, working_dir })
    } else if dev_entry_exists {
        Ok(dev_layout(cwd))
    } else {
        Err(PathResolutionError::NotFound)
    }
}

} // verus!
