use vstd::prelude::*;
use vstd::slice::slice_to_vec;

verus! {

// The janitor reclaims disk space: the shell enumerates the direct entries
// of the asset directory with their last-modified times, this module decides
// which of them have outlived the time-to-live, and the shell deletes those,
// skipping (not aborting on) any entry whose deletion fails.  Running the
// decision over a snapshot keeps the scan safe beside active encoder
// sessions: a freshly allocated output file has a recent modification time
// and is never selected as long as the TTL dwarfs a single encode.

/// One directory entry as the janitor sees it: its path and the time it was
/// last modified, in milliseconds of the same clock as `now`.
pub struct FileEntry {
    pub path: Vec<u8>,
    pub modified_millis: u64,
}

/// Whether a file last modified at `modified` has, at time `now`, an age
/// strictly above `ttl` milliseconds.  A modification time at or beyond
/// `now` counts as fresh.
pub open spec fn spec_is_stale(modified: u64, now: u64, ttl: u64) -> bool {
    modified < now && now - modified > ttl
}

/// The paths the janitor is to delete: exactly the stale entries of the
/// scan, in scan order.
pub open spec fn spec_stale_paths(entries: Seq<FileEntry>, now: u64, ttl: u64) -> Seq<Seq<u8>> {
    entries.filter(|e: FileEntry| spec_is_stale(e.modified_millis, now, ttl)).map_values(
        |e: FileEntry| e.path@,
    )
}

/// How one more scanned entry extends the selection: a stale entry
/// contributes its path, a fresh one contributes nothing.
pub proof fn lemma_stale_paths_push(entries: Seq<FileEntry>, e: FileEntry, now: u64, ttl: u64)
    ensures
        spec_stale_paths(entries.push(e), now, ttl) == if spec_is_stale(
            e.modified_millis,
            now,
            ttl,
        ) {
            spec_stale_paths(entries, now, ttl).push(e.path@)
        } else {
            spec_stale_paths(entries, now, ttl)
        },
{
    broadcast use Seq::lemma_filter_push;

    if spec_is_stale(e.modified_millis, now, ttl) {
        assert(spec_stale_paths(entries.push(e), now, ttl) =~= spec_stale_paths(
            entries,
            now,
            ttl,
        ).push(e.path@));
    } else {
        assert(spec_stale_paths(entries.push(e), now, ttl) =~= spec_stale_paths(
            entries,
            now,
            ttl,
        ));
    }
}

/// Decides which scanned files are stale.
///
/// Returns the paths of exactly those entries whose age exceeds `ttl`, in
/// scan order: no file below the TTL is ever selected, and no file above it
/// is ever passed over.
pub fn select_stale(entries: &Vec<FileEntry>, now: u64, ttl: u64) -> (r: Vec<Vec<u8>>)
    ensures
        r@.map_values(|p: Vec<u8>| p@) == spec_stale_paths(entries@, now, ttl),
{
    let n = entries.len();
    let mut out: Vec<Vec<u8>> = Vec::new();
    let mut i: usize = 0;
    proof {
        assert(entries@.take(0) =~= Seq::<FileEntry>::empty());
        assert(out@.map_values(|p: Vec<u8>| p@) =~= spec_stale_paths(entries@.take(0), now, ttl));
    }
    while i < n
        invariant
            i <= n,
            n == entries@.len(),
            out@.map_values(|p: Vec<u8>| p@) == spec_stale_paths(entries@.take(i as int), now, ttl),
        decreases n - i,
    {
        let e = &entries[i];
        if e.modified_millis < now && now - e.modified_millis > ttl {
            out.push(slice_to_vec(e.path.as_slice()));
        }
        proof {
            assert(entries@.take(i + 1) =~= entries@.take(i as int).push(entries@[i as int]));
            lemma_stale_paths_push(entries@.take(i as int), entries@[i as int], now, ttl);
            assert(out@.map_values(|p: Vec<u8>| p@) =~= spec_stale_paths(
                entries@.take(i + 1),
                now,
                ttl,
            ));
        }
        i += 1;
    }
    proof {
        assert(entries@.take(n as int) =~= entries@);
    }
    out
}

/// Whether position `j` of the scan holds a stale entry.
pub open spec fn stale_at(entries: Seq<FileEntry>, j: int, now: u64, ttl: u64) -> bool {
    0 <= j < entries.len() && spec_is_stale(entries[j].modified_millis, now, ttl)
}

/// Whether `p` is the path of some stale entry of the scan.
pub open spec fn is_path_of_stale(entries: Seq<FileEntry>, p: Seq<u8>, now: u64, ttl: u64) -> bool {
    exists|j: int| #[trigger] stale_at(entries, j, now, ttl) && entries[j].path@ == p
}

/// Law: the janitor's selection is exact.  Every selected path is the path
/// of a stale entry of the scan — a file below the TTL is never deleted —
/// and the path of every stale entry is selected.
pub proof fn lemma_stale_selection_exact(entries: Seq<FileEntry>, now: u64, ttl: u64)
    ensures
        forall|k: int|
            0 <= k < spec_stale_paths(entries, now, ttl).len() ==> is_path_of_stale(
                entries,
                #[trigger] spec_stale_paths(entries, now, ttl)[k],
                now,
                ttl,
            ),
        forall|j: int|
            stale_at(entries, j, now, ttl) ==> spec_stale_paths(entries, now, ttl).contains(
                #[trigger] entries[j].path@,
            ),
{
    let pred = |e: FileEntry| spec_is_stale(e.modified_millis, now, ttl);
    let kept = entries.filter(pred);
    let paths = spec_stale_paths(entries, now, ttl);
    assert forall|k: int| 0 <= k < paths.len() implies is_path_of_stale(
        entries,
        paths[k],
        now,
        ttl,
    ) by {
        entries.lemma_filter_pred(pred, k);
        lemma_filter_elem_of(entries, pred, k);
        let j = choose|j: int| 0 <= j < entries.len() && entries[j] == kept[k];
        assert(stale_at(entries, j, now, ttl) && entries[j].path@ == paths[k]);
    }
    assert forall|j: int| stale_at(entries, j, now, ttl) implies paths.contains(
        entries[j].path@,
    ) by {
        entries.lemma_filter_contains(pred, j);
        let k = choose|k: int| 0 <= k < kept.len() && kept[k] == entries[j];
        assert(paths[k] == entries[j].path@);
    }
}

/// Every element of a filtered sequence is an element of the original.
proof fn lemma_filter_elem_of(entries: Seq<FileEntry>, pred: spec_fn(FileEntry) -> bool, k: int)
    requires
        0 <= k < entries.filter(pred).len(),
    ensures
        exists|j: int| 0 <= j < entries.len() && entries[j] == entries.filter(pred)[k],
    decreases entries.len(),
{
    reveal(Seq::filter);
    if entries.len() > 0 {
        let prefix = entries.drop_last();
        if pred(entries.last()) && k == entries.filter(pred).len() - 1 {
            assert(entries[entries.len() - 1] == entries.filter(pred)[k]);
        } else {
            lemma_filter_elem_of(prefix, pred, k);
            let j = choose|j: int| 0 <= j < prefix.len() && prefix[j] == prefix.filter(pred)[k];
            assert(entries[j] == entries.filter(pred)[k]);
        }
    }
}

} // verus!
