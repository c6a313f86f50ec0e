use crate::utils::views;
use vstd::prelude::*;

verus! {

/// How many recently opened paths are remembered.
pub const RECENT_CAPACITY: usize = 5;

/// The recent-files list after opening `path`: a path already present leaves
/// the list as it is; otherwise it is appended and, past the capacity, the
/// oldest entry is dropped.
pub open spec fn pushed_recent(recent: Seq<Seq<char>>, path: Seq<char>) -> Seq<Seq<char>> {
    if recent.contains(path) {
        recent
    } else if recent.len() >= RECENT_CAPACITY {
        recent.push(path).drop_first()
    } else {
        recent.push(path)
    }
}

/// The recent-files list after opening each of `paths` in turn.
pub open spec fn pushed_all(recent: Seq<Seq<char>>, paths: Seq<Seq<char>>) -> Seq<Seq<char>>
    decreases paths.len(),
{
    if paths.len() == 0 {
        recent
    } else {
        pushed_all(pushed_recent(recent, paths[0]), paths.drop_first())
    }
}

/// Opening a path keeps the list within capacity and free of repeats, and
/// opening a path already present does not grow it.
pub proof fn lemma_push_recent_bounded(recent: Seq<Seq<char>>, path: Seq<char>)
    requires
        recent.len() <= RECENT_CAPACITY,
        recent.no_duplicates(),
    ensures
        pushed_recent(recent, path).len() <= RECENT_CAPACITY,
        pushed_recent(recent, path).no_duplicates(),
        pushed_recent(recent, path).contains(path),
        recent.contains(path) ==> pushed_recent(recent, path) == recent,
{
    let q = recent.push(path);
    if !recent.contains(path) {
        assert(q[q.len() - 1] == path);
        if recent.len() >= RECENT_CAPACITY {
            assert(q.drop_first()[q.len() - 2] == path);
        }
    }
}

/// However many paths are opened, the recent-files list never holds more than
/// its capacity, nor any path twice.
pub proof fn lemma_recent_files_stay_bounded(recent: Seq<Seq<char>>, paths: Seq<Seq<char>>)
    requires
        recent.len() <= RECENT_CAPACITY,
        recent.no_duplicates(),
    ensures
        pushed_all(recent, paths).len() <= RECENT_CAPACITY,
        pushed_all(recent, paths).no_duplicates(),
    decreases paths.len(),
{
    if paths.len() > 0 {
        lemma_push_recent_bounded(recent, paths[0]);
        lemma_recent_files_stay_bounded(pushed_recent(recent, paths[0]), paths.drop_first());
    }
}

/// Records that `path` was opened.
pub fn push_recent(recent: &mut Vec<String>, path: String)
    requires
        old(recent)@.len() <= RECENT_CAPACITY,
        views(old(recent)@).no_duplicates(),
    ensures
        views(final(recent)@) == pushed_recent(views(old(recent)@), path@),
        final(recent)@.len() <= RECENT_CAPACITY,
        views(final(recent)@).no_duplicates(),
{
    proof {
        lemma_push_recent_bounded(views(recent@), path@);
    }
    let mut found = false;
    let n = recent.len();
    for i in 0..n
        invariant
            n == recent@.len(),
            found <==> exists|j: int| 0 <= j < i && recent@[j]@ == path@,
    {
        if recent[i] == path {
            found = true;
        }
    }
    proof {
        if found {
            let j = choose|j: int| 0 <= j < n && recent@[j]@ == path@;
            assert(views(recent@)[j] == path@);
        } else {
            assert forall|j: int| 0 <= j < n implies views(recent@)[j] != path@ by {
                assert(recent@[j]@ != path@);
            }
        }
    }
    if found {
        return;
    }
    let ghost before = views(recent@);
    recent.push(path);
    proof {
        assert(views(recent@) =~= before.push(path@));
    }
    if recent.len() > RECENT_CAPACITY {
        recent.remove(0);
        proof {
            assert(views(recent@) =~= before.push(path@).drop_first());
        }
    }
}

} // verus!
