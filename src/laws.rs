use vstd::prelude::*;

use crate::registry::{EntryView, PathView, RegistryView};

verus! {

/// Between calls, name-to-origin and origin-to-name are inverse bijections:
/// two entries share a name exactly when they share an origin, that is,
/// exactly when they are one entry; and looking up the origin of a name and
/// then the name of that origin gives the name back.
pub proof fn lemma_names_origins_inverse(r: RegistryView)
    requires
        r.wf(),
    ensures
        forall|i: int, j: int|
            0 <= i < r.entries.len() && 0 <= j < r.entries.len() ==> ((r.entries[i].name
                == r.entries[j].name) <==> i == j) && ((r.entries[i].origin == r.entries[j].origin)
                <==> i == j),
        forall|n: Seq<char>|
            #![trigger r.has_name(n)]
            r.has_name(n) ==> r.entries[r.index_of_origin(
                r.entries[r.index_of_name(n)].origin,
            )].name == n,
        forall|o: PathView|
            #![trigger r.has_origin(o)]
            r.has_origin(o) ==> r.entries[r.index_of_name(
                r.entries[r.index_of_origin(o)].name,
            )].origin == o,
{
    assert forall|n: Seq<char>| #![trigger r.has_name(n)] r.has_name(n) implies r.entries[r.index_of_origin(
        r.entries[r.index_of_name(n)].origin,
    )].name == n by {
        let i = r.index_of_name(n);
        let o = r.entries[i].origin;
        assert(r.entries[i].origin == o);
        let j = r.index_of_origin(o);
        assert(i == j);
    }
    assert forall|o: PathView| #![trigger r.has_origin(o)] r.has_origin(o) implies r.entries[r.index_of_name(
        r.entries[r.index_of_origin(o)].name,
    )].origin == o by {
        let i = r.index_of_origin(o);
        let n = r.entries[i].name;
        assert(r.entries[i].name == n);
        let j = r.index_of_name(n);
        assert(i == j);
    }
}

/// Adding a library, removing it and adding it again from the same origin
/// leaves the same entries as adding it once (the load file may differ):
/// the removal restores the entries exactly, so the second addition meets
/// no name or origin conflict, and the first load file awaits deletion.
pub proof fn lemma_add_remove_add(r: RegistryView, e1: EntryView, e2: EntryView)
    requires
        r.wf(),
        !r.has_name(e1.name),
        e2.name == e1.name,
        e2.origin == e1.origin,
    ensures
        ({
            let s1 = RegistryView { entries: r.entries.push(e1), pending: r.pending_without(e1.load) };
            let s2 = RegistryView {
                entries: s1.entries.remove(s1.index_of_name(e1.name)),
                pending: s1.pending.push(e1.load),
            };
            &&& s2.entries == r.entries
            &&& s2.entries.push(e2) == r.entries.push(e2)
            &&& !s2.has_name(e2.name)
            &&& s2.has_origin(e2.origin) == r.has_origin(e2.origin)
            &&& s2.pending.last() == e1.load
        }),
{
    let s1 = RegistryView { entries: r.entries.push(e1), pending: r.pending_without(e1.load) };
    let n = r.entries.len() as int;
    assert(s1.entries[n].name == e1.name);
    let k = s1.index_of_name(e1.name);
    if k != n {
        assert(s1.entries[k] == r.entries[k]);
        assert(r.has_name(e1.name));
    }
    assert(s1.entries.remove(k) =~= r.entries);
}

/// A reload unloads the entry of an origin and publishes a new load of the
/// same name from the same origin: the names loaded, and the origin of each,
/// are what they were before.
pub proof fn lemma_reload_keeps_bindings(r: RegistryView, o: PathView, l: PathView)
    requires
        r.wf(),
        r.has_origin(o),
    ensures
        ({
            let i = r.index_of_origin(o);
            let gone = r.entries[i];
            let s = RegistryView { entries: r.entries.remove(i), pending: r.pending.push(gone.load) };
            let e = EntryView { name: gone.name, origin: o, load: l };
            let t = s.entries.push(e);
            &&& !s.has_name(e.name)
            &&& !s.has_origin(o)
            &&& t.len() == r.entries.len()
            &&& forall|n: Seq<char>|
                (exists|a: int| 0 <= a < t.len() && t[a].name == n) <==> r.has_name(n)
            &&& forall|a: int|
                #![trigger t[a]]
                0 <= a < t.len() ==> exists|b: int|
                    #![trigger r.entries[b]]
                    0 <= b < r.entries.len() && r.entries[b].name == t[a].name
                        && r.entries[b].origin == t[a].origin
        }),
{
    let i = r.index_of_origin(o);
    let gone = r.entries[i];
    let s = RegistryView { entries: r.entries.remove(i), pending: r.pending.push(gone.load) };
    let e = EntryView { name: gone.name, origin: o, load: l };
    let t = s.entries.push(e);
    let m = s.entries.len() as int;
    assert forall|a: int| 0 <= a < s.entries.len() implies s.entries[a] == r.entries[
        if a < i { a } else { a + 1 }
    ] by {}
    assert forall|n: Seq<char>|
        (exists|a: int| 0 <= a < t.len() && t[a].name == n) <==> r.has_name(n) by {
        if r.has_name(n) {
            let b = choose|b: int| 0 <= b < r.entries.len() && r.entries[b].name == n;
            if b == i {
                assert(t[m].name == n);
            } else if b < i {
                assert(t[b].name == n);
            } else {
                assert(t[b - 1].name == n);
            }
        }
        if exists|a: int| 0 <= a < t.len() && t[a].name == n {
            let a = choose|a: int| 0 <= a < t.len() && t[a].name == n;
            if a == m {
                assert(r.entries[i].name == n);
            } else if a < i {
                assert(r.entries[a].name == n);
            } else {
                assert(r.entries[a + 1].name == n);
            }
        }
    }
    assert forall|a: int| #![trigger t[a]] 0 <= a < t.len() implies exists|b: int|
        #![trigger r.entries[b]]
        0 <= b < r.entries.len() && r.entries[b].name == t[a].name && r.entries[b].origin
            == t[a].origin by {
        if a == m {
            assert(r.entries[i].name == t[a].name && r.entries[i].origin == t[a].origin);
        } else if a < i {
            assert(r.entries[a] == t[a]);
        } else {
            assert(r.entries[a + 1] == t[a]);
        }
    }
}

} // verus!
