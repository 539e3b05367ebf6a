use vstd::prelude::*;

verus! {

/// A file, as the directory that holds it and its name there.
pub struct FilePath {
    pub dir: String,
    pub file: String,
}

/// What a `FilePath` denotes: its directory and its file name.
pub type PathView = (Seq<char>, Seq<char>);

impl View for FilePath {
    type V = PathView;

    open spec fn view(&self) -> PathView {
        (self.dir@, self.file@)
    }
}

impl FilePath {
    pub fn new(dir: String, file: String) -> (r: FilePath)
        ensures
            r@ == (dir@, file@),
    {
        FilePath { dir, file }
    }

    pub fn copy(&self) -> (r: FilePath)
        ensures
            r@ == self@,
    {
        FilePath { dir: self.dir.clone(), file: self.file.clone() }
    }

    /// Whether the two denote the same file.
    pub fn same(&self, other: &FilePath) -> (r: bool)
        ensures
            r == (self@ == other@),
    {
        self.dir == other.dir && self.file == other.file
    }
}

/// One loaded library: its logical name, the origin file the developer
/// builds, and the load file that was actually mapped.
pub struct Entry {
    pub name: String,
    pub origin: FilePath,
    pub load: FilePath,
}

pub struct EntryView {
    pub name: Seq<char>,
    pub origin: PathView,
    pub load: PathView,
}

impl View for Entry {
    type V = EntryView;

    open spec fn view(&self) -> EntryView {
        EntryView { name: self.name@, origin: self.origin@, load: self.load@ }
    }
}

/// The abstract state of a registry: the loaded entries and the queue of
/// load files whose deletion is still owed, oldest first.
pub struct RegistryView {
    pub entries: Seq<EntryView>,
    pub pending: Seq<PathView>,
}

impl RegistryView {
    /// The invariants between public calls: names and origins are each
    /// unique, so that name-to-origin and origin-to-name are inverse
    /// bijections; no two entries share a load file; the pending queue
    /// holds each file once and no file that an entry still uses.
    pub open spec fn wf(self) -> bool {
        &&& forall|i: int, j: int|
            0 <= i < self.entries.len() && 0 <= j < self.entries.len() && i != j
                ==> self.entries[i].name != self.entries[j].name
        &&& forall|i: int, j: int|
            0 <= i < self.entries.len() && 0 <= j < self.entries.len() && i != j
                ==> self.entries[i].origin != self.entries[j].origin
        &&& forall|i: int, j: int|
            0 <= i < self.entries.len() && 0 <= j < self.entries.len() && i != j
                ==> self.entries[i].load != self.entries[j].load
        &&& forall|i: int, j: int|
            0 <= i < self.pending.len() && 0 <= j < self.pending.len() && i != j
                ==> self.pending[i] != self.pending[j]
        &&& forall|i: int, k: int|
            0 <= i < self.entries.len() && 0 <= k < self.pending.len()
                ==> self.entries[i].load != self.pending[k]
    }

    pub open spec fn has_name(self, n: Seq<char>) -> bool {
        exists|i: int| 0 <= i < self.entries.len() && self.entries[i].name == n
    }

    pub open spec fn has_origin(self, o: PathView) -> bool {
        exists|i: int| 0 <= i < self.entries.len() && self.entries[i].origin == o
    }

    pub open spec fn uses_load(self, l: PathView) -> bool {
        exists|i: int| 0 <= i < self.entries.len() && self.entries[i].load == l
    }

    /// The position of the entry named `n`.
    pub open spec fn index_of_name(self, n: Seq<char>) -> int {
        choose|i: int| 0 <= i < self.entries.len() && self.entries[i].name == n
    }

    /// The position of the entry whose origin is `o`.
    pub open spec fn index_of_origin(self, o: PathView) -> int {
        choose|i: int| 0 <= i < self.entries.len() && self.entries[i].origin == o
    }

    /// The pending queue once the file `p` is gone: `p` leaves it, the rest
    /// keep their order.
    pub open spec fn pending_without(self, p: PathView) -> Seq<PathView> {
        if self.pending.contains(p) {
            self.pending.remove(choose|k: int| 0 <= k < self.pending.len() && self.pending[k] == p)
        } else {
            self.pending
        }
    }
}

/// Why an entry could not be published.
#[derive(PartialEq, Eq, Structural, Debug)]
pub enum Conflict {
    /// An entry of that name is loaded already.
    Name,
    /// An entry with that origin file is loaded already.
    Origin,
    /// An entry maps that load file already.
    Load,
}

/// The bookkeeping of a reload coordinator: which libraries are loaded, from
/// where, through which load file, and which load files still await deletion.
pub struct Registry {
    entries: Vec<Entry>,
    pending: Vec<FilePath>,
}

impl View for Registry {
    type V = RegistryView;

    closed spec fn view(&self) -> RegistryView {
        RegistryView {
            entries: self.entries@.map_values(|e: Entry| e@),
            pending: self.pending@.map_values(|p: FilePath| p@),
        }
    }
}


proof fn lemma_take_keeps_wf(v: RegistryView, i: int)
    requires
        v.wf(),
        0 <= i < v.entries.len(),
    ensures
        (RegistryView { entries: v.entries.remove(i), pending: v.pending.push(v.entries[i].load) }).wf(),
{
    let w = RegistryView { entries: v.entries.remove(i), pending: v.pending.push(v.entries[i].load) };
    assert forall|a: int| 0 <= a < w.entries.len() implies w.entries[a] == v.entries[
        if a < i { a } else { a + 1 }
    ] by {}
    assert forall|a: int| 0 <= a < w.pending.len() implies w.pending[a] == (
        if a < v.pending.len() { v.pending[a] } else { v.entries[i].load }
    ) by {}
}

impl Registry {
    /// A registry with nothing loaded and nothing pending.
    pub fn new() -> (r: Registry)
        ensures
            r@.entries.len() == 0,
            r@.pending.len() == 0,
            r@.wf(),
    {
        Registry { entries: Vec::new(), pending: Vec::new() }
    }

    /// The number of loaded entries.
    pub fn len(&self) -> (r: usize)
        ensures
            r == self@.entries.len(),
    {
        self.entries.len()
    }

    /// The position of the entry named `name`, if one is loaded.
    pub fn find_name(&self, name: &str) -> (r: Option<usize>)
        requires
            self@.wf(),
        ensures
            r is None <==> !self@.has_name(name@),
            r matches Some(i) ==> i == self@.index_of_name(name@) && i < self@.entries.len()
                && self@.entries[i as int].name == name@,
    {
        let key = String::from_str(name);
        let mut i: usize = 0;
        while i < self.entries.len()
            invariant
                i <= self.entries.len(),
                key@ == name@,
                self@.wf(),
                forall|k: int| 0 <= k < i ==> self@.entries[k].name != name@,
            decreases self.entries.len() - i,
        {
            if self.entries[i].name == key {
                assert(self@.entries[i as int].name == name@);
                let ghost c = self@.index_of_name(name@);
                assert(self@.entries[c].name == name@);
                return Some(i);
            }
            i = i + 1;
        }
        None
    }

    /// The position of the entry whose origin file is `origin`, if any.
    pub fn find_origin(&self, origin: &FilePath) -> (r: Option<usize>)
        requires
            self@.wf(),
        ensures
            r is None <==> !self@.has_origin(origin@),
            r matches Some(i) ==> i == self@.index_of_origin(origin@) && i < self@.entries.len()
                && self@.entries[i as int].origin == origin@,
    {
        let mut i: usize = 0;
        while i < self.entries.len()
            invariant
                i <= self.entries.len(),
                forall|k: int| 0 <= k < i ==> self@.entries[k].origin != origin@,
                self@.wf(),
            decreases self.entries.len() - i,
        {
            if self.entries[i].origin.same(origin) {
                assert(self@.entries[i as int].origin == origin@);
                let ghost c = self@.index_of_origin(origin@);
                assert(self@.entries[c].origin == origin@);
                return Some(i);
            }
            i = i + 1;
        }
        None
    }

    /// Whether a library of that name is loaded.
    pub fn contains(&self, name: &str) -> (r: bool)
        requires
            self@.wf(),
        ensures
            r == self@.has_name(name@),
    {
        self.find_name(name).is_some()
    }

    /// The entry named `name`, if one is loaded.
    pub fn get(&self, name: &str) -> (r: Option<&Entry>)
        requires
            self@.wf(),
        ensures
            r is None <==> !self@.has_name(name@),
            r matches Some(e) ==> e@ == self@.entries[self@.index_of_name(name@)],
    {
        match self.find_name(name) {
            Some(i) => Some(&self.entries[i]),
            None => None,
        }
    }

    /// The oldest load file still awaiting deletion.
    pub fn pending_front(&self) -> (r: Option<&FilePath>)
        ensures
            r is None <==> self@.pending.len() == 0,
            r matches Some(p) ==> p@ == self@.pending[0],
    {
        if self.pending.len() == 0 {
            None
        } else {
            Some(&self.pending[0])
        }
    }

    /// Takes the outcome of a deletion attempt on the oldest pending file. A
    /// file that is gone leaves the queue and the walk goes on; a file that
    /// stays ends the walk, and the queue keeps its order for the next one.
    pub fn settle_front(&mut self, gone: bool) -> (go_on: bool)
        requires
            old(self)@.wf(),
            old(self)@.pending.len() > 0,
        ensures
            final(self)@.wf(),
            go_on == gone,
            final(self)@.entries == old(self)@.entries,
            gone ==> final(self)@.pending == old(self)@.pending.drop_first(),
            !gone ==> final(self)@.pending == old(self)@.pending,
    {
        if gone {
            let ghost before = self@;
            self.pending.remove(0);
            assert(self@.pending =~= before.pending.drop_first());
            assert(self@.entries =~= before.entries);
            assert forall|a: int| 0 <= a < self@.pending.len() implies self@.pending[a]
                == before.pending[a + 1] by {}
        }
        gone
    }

    /// Whether `path` awaits deletion.
    pub fn is_pending(&self, path: &FilePath) -> (r: bool)
        ensures
            r == self@.pending.contains(path@),
    {
        self.find_pending(path).is_some()
    }

    fn find_pending(&self, path: &FilePath) -> (r: Option<usize>)
        ensures
            r is None <==> !self@.pending.contains(path@),
            r matches Some(k) ==> k < self@.pending.len() && self@.pending[k as int] == path@,
    {
        let mut k: usize = 0;
        while k < self.pending.len()
            invariant
                k <= self.pending.len(),
                forall|j: int| 0 <= j < k ==> self@.pending[j] != path@,
            decreases self.pending.len() - k,
        {
            if self.pending[k].same(path) {
                assert(self@.pending[k as int] == path@);
                return Some(k);
            }
            k = k + 1;
        }
        None
    }

    /// Records that the file `path` is gone from disk: it leaves the pending
    /// queue if it was there.
    pub fn deleted(&mut self, path: &FilePath)
        requires
            old(self)@.wf(),
        ensures
            final(self)@.wf(),
            final(self)@.entries == old(self)@.entries,
            final(self)@.pending == old(self)@.pending_without(path@),
    {
        match self.find_pending(path) {
            Some(k) => {
                let ghost before = self@;
                let ghost c = choose|j: int| 0 <= j < before.pending.len() && before.pending[j] == path@;
                assert(before.pending[k as int] == path@);
                assert(c == k);
                self.pending.remove(k);
                assert(self@.pending =~= before.pending.remove(k as int));
                assert(self@.entries =~= before.entries);
            },
            None => {},
        }
    }

    /// Publishes a freshly loaded library. Refused, with nothing changed, where
    /// its name or its origin is loaded already or its load file is in use.
    /// On success the load file leaves the pending queue if it was there: a
    /// stale file of an earlier run was reclaimed.
    pub fn insert(&mut self, e: Entry) -> (r: Result<(), Conflict>)
        requires
            old(self)@.wf(),
        ensures
            final(self)@.wf(),
            r == Err::<(), Conflict>(Conflict::Name) <==> old(self)@.has_name(e@.name),
            r == Err::<(), Conflict>(Conflict::Origin) <==> !old(self)@.has_name(e@.name)
                && old(self)@.has_origin(e@.origin),
            r == Err::<(), Conflict>(Conflict::Load) <==> !old(self)@.has_name(e@.name)
                && !old(self)@.has_origin(e@.origin) && old(self)@.uses_load(e@.load),
            r is Ok <==> !old(self)@.has_name(e@.name) && !old(self)@.has_origin(e@.origin)
                && !old(self)@.uses_load(e@.load),
            r is Err ==> final(self)@ == old(self)@,
            r is Ok ==> final(self)@.entries == old(self)@.entries.push(e@)
                && final(self)@.pending == old(self)@.pending_without(e@.load),
    {
        if self.find_name(e.name.as_str()).is_some() {
            return Err(Conflict::Name);
        }
        if self.find_origin(&e.origin).is_some() {
            return Err(Conflict::Origin);
        }
        if self.uses_load(&e.load) {
            return Err(Conflict::Load);
        }
        let ghost before = self@;
        self.deleted(&e.load);
        let ghost mid = self@;
        self.entries.push(e);
        assert(self@.entries =~= before.entries.push(e@));
        assert(self@.pending =~= mid.pending);
        assert forall|k: int| 0 <= k < self@.pending.len() implies self@.pending[k] != e@.load by {
            if before.pending.contains(e@.load) {
                let c = choose|j: int| 0 <= j < before.pending.len() && before.pending[j] == e@.load;
                if k < c {
                    assert(self@.pending[k] == before.pending[k]);
                } else {
                    assert(self@.pending[k] == before.pending[k + 1]);
                }
            } else {
                assert(self@.pending[k] == before.pending[k]);
            }
        }
        Ok(())
    }

    /// Whether a loaded entry maps the load file `load`.
    pub fn uses_load(&self, load: &FilePath) -> (r: bool)
        ensures
            r == self@.uses_load(load@),
    {
        let mut i: usize = 0;
        while i < self.entries.len()
            invariant
                i <= self.entries.len(),
                forall|k: int| 0 <= k < i ==> self@.entries[k].load != load@,
            decreases self.entries.len() - i,
        {
            if self.entries[i].load.same(load) {
                assert(self@.entries[i as int].load == load@);
                return true;
            }
            i = i + 1;
        }
        false
    }

    fn take_at(&mut self, i: usize) -> (r: Entry)
        requires
            old(self)@.wf(),
            i < old(self)@.entries.len(),
        ensures
            final(self)@.wf(),
            r@ == old(self)@.entries[i as int],
            final(self)@.entries == old(self)@.entries.remove(i as int),
            final(self)@.pending == old(self)@.pending.push(r@.load),
    {
        let ghost before = self@;
        proof {
            lemma_take_keeps_wf(before, i as int);
        }
        let e = self.entries.remove(i);
        self.pending.push(e.load.copy());
        assert(self@.entries =~= before.entries.remove(i as int));
        assert(self@.pending =~= before.pending.push(e@.load));
        e
    }

    /// Unloads the library named `name`: its entry leaves the registry and its
    /// load file joins the end of the pending queue. Nothing changes where no
    /// library of that name is loaded.
    pub fn remove(&mut self, name: &str) -> (r: Option<Entry>)
        requires
            old(self)@.wf(),
        ensures
            final(self)@.wf(),
            r is None <==> !old(self)@.has_name(name@),
            r is None ==> final(self)@ == old(self)@,
            r matches Some(e) ==> e@ == old(self)@.entries[old(self)@.index_of_name(name@)]
                && final(self)@.entries == old(self)@.entries.remove(old(self)@.index_of_name(name@))
                && final(self)@.pending == old(self)@.pending.push(e@.load),
    {
        match self.find_name(name) {
            Some(i) => Some(self.take_at(i)),
            None => None,
        }
    }

    /// Unloads the library whose origin file is `origin`, as a reload does
    /// before it maps the new build. Nothing changes where no loaded library
    /// comes from that file.
    pub fn remove_origin(&mut self, origin: &FilePath) -> (r: Option<Entry>)
        requires
            old(self)@.wf(),
        ensures
            final(self)@.wf(),
            r is None <==> !old(self)@.has_origin(origin@),
            r is None ==> final(self)@ == old(self)@,
            r matches Some(e) ==> e@ == old(self)@.entries[old(self)@.index_of_origin(origin@)]
                && final(self)@.entries == old(self)@.entries.remove(old(self)@.index_of_origin(origin@))
                && final(self)@.pending == old(self)@.pending.push(e@.load),
    {
        match self.find_origin(origin) {
            Some(i) => Some(self.take_at(i)),
            None => None,
        }
    }

    /// Unloads everything, as shutdown does: every entry leaves the registry,
    /// in order, and each load file joins the end of the pending queue.
    pub fn take_all(&mut self) -> (r: Vec<Entry>)
        requires
            old(self)@.wf(),
        ensures
            final(self)@.wf(),
            r@.map_values(|e: Entry| e@) == old(self)@.entries,
            final(self)@.entries.len() == 0,
            final(self)@.pending == old(self)@.pending + old(self)@.entries.map_values(
                |e: EntryView| e.load,
            ),
    {
        let ghost start = self@;
        let ghost n = start.entries.len();
        let mut out: Vec<Entry> = Vec::new();
        while self.entries.len() > 0
            invariant
                self@.wf(),
                n == start.entries.len(),
                out@.len() <= n,
                out@.map_values(|e: Entry| e@) == start.entries.subrange(0, out@.len() as int),
                self@.entries == start.entries.subrange(out@.len() as int, n as int),
                self@.pending == start.pending + start.entries.subrange(
                    0,
                    out@.len() as int,
                ).map_values(|e: EntryView| e.load),
            decreases self@.entries.len(),
        {
            let ghost k = out@.len() as int;
            let e = self.take_at(0);
            out.push(e);
            assert(out@.map_values(|e: Entry| e@) =~= start.entries.subrange(0, k + 1));
            assert(self@.entries =~= start.entries.subrange(k + 1, n as int));
            assert(start.entries.subrange(0, k + 1).map_values(|e: EntryView| e.load)
                =~= start.entries.subrange(0, k).map_values(|e: EntryView| e.load).push(
                start.entries[k].load,
            ));
            assert(self@.pending =~= start.pending + start.entries.subrange(0, k + 1).map_values(
                |e: EntryView| e.load,
            ));
        }
        assert(start.entries.subrange(0, n as int) =~= start.entries);
        out
    }
}

} // verus!
