use vstd::prelude::*;

use crate::naming::Decoration;
use crate::registry::FilePath;

verus! {

/// The directory name that marks a test binary's layout: `deps`.
pub open spec fn deps_dir_name() -> Seq<char> {
    seq!['d', 'e', 'p', 's']
}

/// The search directories of a new loader: the extra ones, in order, then
/// the directory that holds the executable, or its parent where that
/// directory is named `deps`.
pub fn search_dirs(
    extra: Vec<String>,
    exe_dir: String,
    exe_dir_name: &str,
    exe_parent: Option<String>,
) -> (r: Vec<String>)
    ensures
        r@.len() == extra@.len() + 1,
        forall|i: int| 0 <= i < extra@.len() ==> r@[i] == extra@[i],
        r@.last()@ == (match exe_parent {
            Some(p) => if exe_dir_name@ == deps_dir_name() { p@ } else { exe_dir@ },
            None => exe_dir@,
        }),
{
    let deps = "deps";
    proof {
        reveal_strlit("deps");
        assert(deps@ =~= deps_dir_name());
    }
    let mut dirs = extra;
    let named_deps = String::from_str(exe_dir_name) == String::from_str(deps);
    match exe_parent {
        Some(p) => {
            if named_deps {
                dirs.push(p);
            } else {
                dirs.push(exe_dir);
            }
        },
        None => {
            dirs.push(exe_dir);
        },
    }
    dirs
}

/// The place of the first `true`, if there is one.
pub fn first_existing(found: &Vec<bool>) -> (r: Option<usize>)
    ensures
        r is None <==> forall|i: int| 0 <= i < found@.len() ==> !found@[i],
        r matches Some(i) ==> i < found@.len() && found@[i as int]
            && forall|k: int| 0 <= k < i ==> !found@[k],
{
    let mut i: usize = 0;
    while i < found.len()
        invariant
            i <= found@.len(),
            forall|k: int| 0 <= k < i ==> !found@[k],
        decreases found@.len() - i,
    {
        if found[i] {
            return Some(i);
        }
        i = i + 1;
    }
    None
}

/// Where library `name` would stand in each search directory, in order.
pub fn origin_candidates(deco: &Decoration, dirs: &Vec<String>, name: &str) -> (r: Vec<FilePath>)
    ensures
        r@.len() == dirs@.len(),
        forall|i: int| 0 <= i < dirs@.len() ==> r@[i]@ == (dirs@[i]@, deco.file_name_of(name@)),
{
    let file = deco.library_file_name(name);
    let mut out: Vec<FilePath> = Vec::new();
    let mut i: usize = 0;
    while i < dirs.len()
        invariant
            i <= dirs@.len(),
            out@.len() == i,
            file@ == deco.file_name_of(name@),
            forall|k: int| 0 <= k < i ==> out@[k]@ == (dirs@[k]@, deco.file_name_of(name@)),
        decreases dirs@.len() - i,
    {
        out.push(FilePath::new(dirs[i].clone(), file.clone()));
        i = i + 1;
    }
    out
}

/// The origin file of library `name`: the first search directory, in order,
/// whose candidate exists (`found[i]` tells of directory `i`). Earlier
/// directories shadow later ones. `None` where no directory holds it.
pub fn locate(deco: &Decoration, dirs: &Vec<String>, name: &str, found: &Vec<bool>) -> (r: Option<
    FilePath,
>)
    requires
        found@.len() == dirs@.len(),
    ensures
        r is None <==> forall|i: int| 0 <= i < found@.len() ==> !found@[i],
        r matches Some(p) ==> exists|i: int|
            0 <= i < dirs@.len() && found@[i] && (forall|k: int| 0 <= k < i ==> !found@[k]) && p@
                == (dirs@[i]@, deco.file_name_of(name@)),
{
    match first_existing(found) {
        Some(i) => Some(FilePath::new(dirs[i].clone(), deco.library_file_name(name))),
        None => None,
    }
}

/// What was found at a candidate load path.
#[derive(PartialEq, Eq, Structural, Debug, Clone, Copy)]
pub enum Probe {
    /// No file stands there.
    Absent,
    /// A file stood there and was deleted.
    Deleted,
    /// A file stands there and could not be deleted.
    Kept,
}

/// The search for a fresh load path for library `name` in directory `dir`:
/// `prefix + name + "_live" + j + suffix` for `j = 0, 1, 2, ...`, the first
/// whose place is free or could be freed.
pub struct SlotSearch {
    pub dir: String,
    pub name: String,
    pub next: u64,
}

impl SlotSearch {
    pub fn new(dir: String, name: String) -> (r: SlotSearch)
        ensures
            r.dir == dir,
            r.name == name,
            r.next == 0,
    {
        SlotSearch { dir, name, next: 0 }
    }

    /// The load path now under trial.
    pub open spec fn candidate_of(self, deco: Decoration) -> (Seq<char>, Seq<char>) {
        (self.dir@, deco.live_name_of(self.name@, self.next as nat))
    }

    /// The load path now under trial.
    pub fn candidate(&self, deco: &Decoration) -> (r: FilePath)
        ensures
            r@ == self.candidate_of(*deco),
    {
        FilePath::new(self.dir.clone(), deco.live_file_name(self.name.as_str(), self.next))
    }

    /// Takes the outcome of probing the current candidate. A place that is
    /// free, or was freed, is chosen; otherwise the search moves on to the
    /// next number.
    pub fn advance(&mut self, deco: &Decoration, probe: Probe) -> (r: Option<FilePath>)
        requires
            old(self).next < u64::MAX,
        ensures
            final(self).dir == old(self).dir,
            final(self).name == old(self).name,
            probe != Probe::Kept ==> final(self).next == old(self).next && (r matches Some(p) && p@
                == old(self).candidate_of(*deco)),
            probe == Probe::Kept ==> final(self).next == old(self).next + 1 && r is None,
    {
        match probe {
            Probe::Kept => {
                self.next = self.next + 1;
                None
            },
            _ => Some(self.candidate(deco)),
        }
    }
}

} // verus!
