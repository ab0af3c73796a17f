use crate::signals::Signal;
use vstd::arithmetic::div_mod::{
    lemma_add_mod_noop, lemma_mod_bound, lemma_mod_self_0, lemma_small_mod,
};
use vstd::prelude::*;

verus! {

/// Error from constructing the cache store.
#[derive(Clone, Copy, Debug, PartialEq, Eq, Structural)]
pub enum StoreError {
    /// The configured wallpaper root does not name a directory.
    NotADirectory,
}

/// No path occurs twice in the sequence.
pub open spec fn unique_paths(paths: Seq<Seq<char>>) -> bool {
    forall|i: int, j: int| 0 <= i < j < paths.len() ==> paths[i] != paths[j]
}

/// The store after a scan result has been merged into it: every
/// discovered path not already present is appended, in discovery order;
/// nothing is ever removed.
pub open spec fn merge_new(store: Seq<Seq<char>>, found: Seq<Seq<char>>) -> Seq<Seq<char>>
    decreases found.len(),
{
    if found.len() == 0 {
        store
    } else {
        let merged = merge_new(store, found.drop_last());
        if merged.contains(found.last()) {
            merged
        } else {
            merged.push(found.last())
        }
    }
}

/// The position selected after one signal: `Next` steps forward and wraps
/// to the front, `Prev` steps back and wraps to the end.
pub open spec fn next_position(signal: Signal, position: int, len: int) -> int
    recommends
        0 < len,
{
    match signal {
        Signal::Next => if position + 1 < len {
            position + 1
        } else {
            0
        },
        Signal::Prev => if position > 0 {
            position - 1
        } else {
            len - 1
        },
    }
}

/// The position selected after a whole sequence of signals, applied in
/// order.
pub open spec fn position_after(signals: Seq<Signal>, position: int, len: int) -> int
    decreases signals.len(),
{
    if signals.len() == 0 {
        position
    } else {
        next_position(signals.last(), position_after(signals.drop_last(), position, len), len)
    }
}

/// One `Next` steps the position exactly as adding one modulo the list
/// length does.
pub proof fn lemma_advance_is_mod(position: int, len: int)
    requires
        0 <= position < len,
    ensures
        next_position(Signal::Next, position, len) == (position + 1) % len,
{
    if position + 1 < len {
        lemma_small_mod((position + 1) as nat, len as nat);
    } else {
        lemma_mod_self_0(len);
    }
}

/// Law: on a non-empty list of length `len`, a run of `Next` signals
/// starting from position 0 ends at position `k % len`, where `k` is how
/// many signals were applied.
pub proof fn lemma_advances_from_zero(signals: Seq<Signal>, len: int)
    requires
        0 < len,
        forall|i: int| 0 <= i < signals.len() ==> signals[i] == Signal::Next,
    ensures
        position_after(signals, 0, len) == signals.len() as int % len,
    decreases signals.len(),
{
    if signals.len() == 0 {
        lemma_small_mod(0, len as nat);
    } else {
        let k = signals.len() as int;
        let prefix = signals.drop_last();
        assert(forall|i: int| 0 <= i < prefix.len() ==> prefix[i] == Signal::Next);
        lemma_advances_from_zero(prefix, len);
        let p = position_after(prefix, 0, len);
        lemma_mod_bound(k - 1, len);
        assert(signals.last() == signals[k - 1]);
        lemma_advance_is_mod(p, len);
        if len == 1 {
            lemma_mod_bound(k, len);
        } else {
            lemma_small_mod(1nat, len as nat);
            lemma_add_mod_noop(k - 1, 1, len);
        }
    }
}

/// Law: a chain of rotations moves the position exactly as
/// [`position_after`] says, and never changes the list. `stores[i]` is
/// the store before the `i`-th rotation, `stores[i + 1]` the store after
/// it; together with [`lemma_advances_from_zero`], a run of `k` `Next`
/// rotations on a non-empty list of length `n`, started at position 0,
/// ends at position `k % n`.
pub proof fn lemma_rotation_trace(
    stores: Seq<FilesMetadataCacheStore>,
    signals: Seq<Signal>,
    applied: Seq<Option<String>>,
)
    requires
        stores.len() == signals.len() + 1,
        applied.len() == signals.len(),
        stores[0].wallpapers().len() > 0,
        forall|i: int| 0 <= i < signals.len() ==> rotated(
            stores[i],
            stores[i + 1],
            signals[i],
            applied[i],
        ),
    ensures
        stores.last().wallpapers() == stores[0].wallpapers(),
        stores.last().position() == position_after(
            signals,
            stores[0].position(),
            stores[0].wallpapers().len() as int,
        ),
    decreases signals.len(),
{
    if signals.len() > 0 {
        let k = signals.len() as int;
        lemma_rotation_trace(stores.drop_last(), signals.drop_last(), applied.drop_last());
        assert(stores.drop_last().last() == stores[k - 1]);
        assert(rotated(stores[k - 1], stores[k], signals[k - 1], applied[k - 1]));
        assert(stores.last() == stores[k]);
        assert(signals.last() == signals[k - 1]);
    }
}

/// Law: one `Next` followed by one `Prev` restores the position, and so
/// does one `Prev` followed by one `Next`, on any non-empty list.
pub proof fn lemma_rotation_round_trip(position: int, len: int)
    requires
        0 < len,
        0 <= position < len,
    ensures
        next_position(Signal::Prev, next_position(Signal::Next, position, len), len) == position,
        next_position(Signal::Next, next_position(Signal::Prev, position, len), len) == position,
{
}

/// Merging never removes or reorders what is already in the store: the
/// old list stays as a prefix of the new one.
pub proof fn lemma_merge_keeps_prefix(store: Seq<Seq<char>>, found: Seq<Seq<char>>)
    ensures
        merge_new(store, found).len() >= store.len(),
        forall|k: int| 0 <= k < store.len() ==> merge_new(store, found)[k] == store[k],
    decreases found.len(),
{
    if found.len() > 0 {
        lemma_merge_keeps_prefix(store, found.drop_last());
    }
}

/// Merging keeps the list free of duplicates: a path already present is
/// never appended again, and no discovery is appended twice.
pub proof fn lemma_merge_keeps_unique(store: Seq<Seq<char>>, found: Seq<Seq<char>>)
    requires
        unique_paths(store),
    ensures
        unique_paths(merge_new(store, found)),
    decreases found.len(),
{
    if found.len() > 0 {
        lemma_merge_keeps_unique(store, found.drop_last());
        let merged = merge_new(store, found.drop_last());
        let last = found.last();
        if !merged.contains(last) {
            let result = merged.push(last);
            assert forall|i: int, j: int| 0 <= i < j < result.len() implies result[i]
                != result[j] by {
                if j < merged.len() {
                    assert(result[i] == merged[i] && result[j] == merged[j]);
                } else {
                    assert(result[i] == merged[i] && result[j] == last);
                    if merged[i] == last {
                        assert(merged.contains(last));
                    }
                }
            }
        }
    }
}

/// Wallpaper directory cache store.
///
/// It owns the ordered list of discovered wallpaper files and the index of
/// the one currently applied. The surrounding daemon shares one store
/// across its tasks and serializes every call under a single lock, so the
/// list and the position are always read and written as one unit.
pub struct FilesMetadataCacheStore {
    /// Wallpaper directory.
    dir: String,

    /// How often the cache should be refreshed, in seconds.
    ttl: u64,

    /// Cache store which keeps the files matching the wallpaper patterns,
    /// in discovery order, without duplicates.
    store: Vec<String>,

    /// Index of the current wallpaper.
    current_id: usize,
}

impl FilesMetadataCacheStore {
    /// The cached wallpaper paths, in discovery order.
    pub closed spec fn wallpapers(&self) -> Seq<Seq<char>> {
        self.store.deep_view()
    }

    /// The index of the current wallpaper.
    pub closed spec fn position(&self) -> int {
        self.current_id as int
    }

    /// The wallpaper directory this store scans.
    pub closed spec fn spec_dir(&self) -> Seq<char> {
        self.dir@
    }

    /// The rescan interval the store was built with, in seconds.
    pub closed spec fn spec_ttl(&self) -> u64 {
        self.ttl
    }

    /// Invariant: the list holds no duplicates, and the position indexes
    /// into it whenever it is non-empty (on an empty list it rests at 0).
    pub open spec fn wf(&self) -> bool {
        &&& unique_paths(self.wallpapers())
        &&& (self.wallpapers().len() == 0 ==> self.position() == 0)
        &&& (self.wallpapers().len() > 0 ==> 0 <= self.position() < self.wallpapers().len())
    }

    /// Constructor: validates the directory, performs the initial scan and
    /// starts the rotation at the first discovered wallpaper.
    pub fn new(dir: String, ttl: u64) -> (result: Result<FilesMetadataCacheStore, StoreError>)
        ensures
            result matches Ok(store) ==> store.wf() && store.spec_dir() == dir@
                && store.spec_ttl() == ttl && store.position() == 0,
            result matches Err(error) ==> error == StoreError::NotADirectory,
    {
        if !path_is_dir(&dir) {
            return Err(StoreError::NotADirectory);
        }
        let store = Self::get_wallpapers(&dir);
        Ok(FilesMetadataCacheStore { dir, ttl, store, current_id: 0 })
    }

    /// Constructor from an already-discovered candidate list, for callers
    /// that enumerated the wallpapers by other means; duplicates in the
    /// list are suppressed, keeping first occurrences.
    pub fn with_wallpapers(dir: String, ttl: u64, wallpapers: Vec<String>) -> (store:
        FilesMetadataCacheStore)
        ensures
            store.wf(),
            store.spec_dir() == dir@,
            store.spec_ttl() == ttl,
            store.position() == 0,
            store.wallpapers() == merge_new(Seq::<Seq<char>>::empty(), wallpapers.deep_view()),
    {
        let mut files: Vec<String> = Vec::new();
        proof {
            assert(files.deep_view() =~= Seq::<Seq<char>>::empty());
        }
        Self::merge_new_files(&mut files, &wallpapers);
        proof {
            lemma_merge_keeps_unique(Seq::<Seq<char>>::empty(), wallpapers.deep_view());
        }
        FilesMetadataCacheStore { dir, ttl, store: files, current_id: 0 }
    }

    /// Gets the names of the wallpaper files in a directory: the paths
    /// matching one of the wallpaper patterns, in discovery order, with
    /// duplicates across the patterns suppressed. Which paths are found
    /// depends on the filesystem at the time of the walk.
    pub fn get_wallpapers(dir: &String) -> (wallpapers: Vec<String>)
        ensures
            unique_paths(wallpapers.deep_view()),
    {
        let jpg_extension = "jpg".to_owned();
        let png_extension = "png".to_owned();
        let jpg_files = glob_paths(dir, &jpg_extension);
        let png_files = glob_paths(dir, &png_extension);
        let mut wallpapers: Vec<String> = Vec::new();
        proof {
            assert(wallpapers.deep_view() =~= Seq::<Seq<char>>::empty());
        }
        Self::merge_new_files(&mut wallpapers, &jpg_files);
        Self::merge_new_files(&mut wallpapers, &png_files);
        proof {
            lemma_merge_keeps_unique(Seq::<Seq<char>>::empty(), jpg_files.deep_view());
            lemma_merge_keeps_unique(
                merge_new(Seq::<Seq<char>>::empty(), jpg_files.deep_view()),
                png_files.deep_view(),
            );
        }
        wallpapers
    }

    /// Ensures that the cache has enough capacity for the refreshed list
    /// of wallpapers, without changing what it holds.
    pub fn ensure_store_capacity_is_enough(store: &mut Vec<String>, needed_size: usize)
        ensures
            final(store)@ == old(store)@,
    {
        let store_len = store.len();
        if needed_size > store_len {
            store.reserve(needed_size - store_len);
        }
    }

    /// Appends, in discovery order, every found path that the store does
    /// not already hold; existing entries are never removed or reordered.
    pub fn merge_new_files(store: &mut Vec<String>, found: &Vec<String>)
        ensures
            final(store).deep_view() == merge_new(old(store).deep_view(), found.deep_view()),
    {
        let ghost initial = store.deep_view();
        let ghost discovered = found.deep_view();
        let mut i: usize = 0;
        while i < found.len()
            invariant
                i <= found.len(),
                found.deep_view() == discovered,
                store.deep_view() == merge_new(initial, discovered.take(i as int)),
            decreases found.len() - i,
        {
            let ghost before = store.deep_view();
            let path = &found[i];
            proof {
                assert(discovered.take(i + 1).drop_last() =~= discovered.take(i as int));
                assert(discovered.take(i + 1).last() == path@);
            }
            if !contains_path(store, path) {
                store.push(path.clone());
                proof {
                    assert(store.deep_view() =~= before.push(path@));
                }
            }
            i += 1;
        }
        proof {
            assert(discovered.take(found.len() as int) =~= discovered);
        }
    }
}

/// One rotation of the store, as observed through its model: the list and
/// the directory are unchanged, the position steps by `signal`, and
/// `applied` is the path now selected, for the caller to hand to the
/// external wallpaper setter. `applied` is `None` exactly when the list
/// is empty: the rotation is then a no-op and no external call is due.
pub open spec fn rotated(
    pre: FilesMetadataCacheStore,
    post: FilesMetadataCacheStore,
    signal: Signal,
    applied: Option<String>,
) -> bool {
    &&& post.wallpapers() == pre.wallpapers()
    &&& post.spec_dir() == pre.spec_dir()
    &&& post.spec_ttl() == pre.spec_ttl()
    &&& (pre.wallpapers().len() == 0 ==> post.position() == pre.position() && applied is None)
    &&& (pre.wallpapers().len() > 0 ==> post.position() == next_position(
        signal,
        pre.position(),
        pre.wallpapers().len() as int,
    ) && (applied matches Some(path) && path@ == pre.wallpapers()[post.position()]))
}

/// One refresh of the store, as observed through its model: nothing is
/// removed or reordered, newly discovered paths are appended at the end,
/// and the position still designates the same path as before.
pub open spec fn refreshed(pre: FilesMetadataCacheStore, post: FilesMetadataCacheStore) -> bool {
    &&& post.spec_dir() == pre.spec_dir()
    &&& post.spec_ttl() == pre.spec_ttl()
    &&& post.position() == pre.position()
    &&& post.wallpapers().len() >= pre.wallpapers().len()
    &&& (forall|k: int| 0 <= k < pre.wallpapers().len() ==> post.wallpapers()[k]
        == pre.wallpapers()[k])
    &&& (pre.wallpapers().len() > 0 ==> post.wallpapers()[post.position()]
        == pre.wallpapers()[pre.position()])
}

impl FilesMetadataCacheStore {
    /// Sets a new background based on the input signal, which can ask for
    /// the next or the previous one.
    ///
    /// The list and the position are read and written as one unit, and the
    /// new position is computed unconditionally: the returned path is the
    /// wallpaper now selected, for the caller to hand to the external
    /// wallpaper setter, and the position is kept whatever that external
    /// call then reports. On an empty list the call is a no-op, returns
    /// `None`, and no external call is due.
    pub fn set_background(&mut self, signal: Signal) -> (applied: Option<String>)
        requires
            old(self).wf(),
        ensures
            final(self).wf(),
            rotated(*old(self), *final(self), signal, applied),
    {
        let store_len = self.store.len();
        if store_len == 0 {
            return None;
        }
        match signal {
            Signal::Next => {
                if self.current_id + 1 < store_len {
                    self.current_id = self.current_id + 1;
                } else {
                    self.current_id = 0;
                }
            },
            Signal::Prev => {
                if self.current_id > 0 {
                    self.current_id = self.current_id - 1;
                } else {
                    self.current_id = store_len - 1;
                }
            },
        }
        Some(self.store[self.current_id].clone())
    }

    /// Reads the file names in the directory and appends the new ones to
    /// the cache store. Existing entries are never removed, even when
    /// their file has meanwhile vanished (a documented limitation), so
    /// growth only appends and the position keeps designating the same
    /// wallpaper as before the refresh.
    pub fn refresh_store(&mut self)
        requires
            old(self).wf(),
        ensures
            final(self).wf(),
            refreshed(*old(self), *final(self)),
    {
        let dir = self.dir.clone();
        let found = Self::get_wallpapers(&dir);
        self.merge_discovered(&found);
    }

    /// Merges one scan result into the cache: every discovered path not
    /// already present is appended, in discovery order, and the position
    /// keeps designating the same wallpaper as before.
    pub fn merge_discovered(&mut self, found: &Vec<String>)
        requires
            old(self).wf(),
        ensures
            final(self).wf(),
            final(self).wallpapers() == merge_new(old(self).wallpapers(), found.deep_view()),
            refreshed(*old(self), *final(self)),
    {
        Self::ensure_store_capacity_is_enough(&mut self.store, found.len());
        proof {
            lemma_merge_keeps_prefix(old(self).wallpapers(), found.deep_view());
            lemma_merge_keeps_unique(old(self).wallpapers(), found.deep_view());
        }
        Self::merge_new_files(&mut self.store, found);
    }

    /// How many wallpapers the cache currently holds.
    pub fn wallpaper_count(&self) -> (count: usize)
        ensures
            count == self.wallpapers().len(),
    {
        self.store.len()
    }

    /// The wallpaper currently selected, or `None` while the cache is
    /// empty.
    pub fn current_wallpaper(&self) -> (current: Option<String>)
        requires
            self.wf(),
        ensures
            self.wallpapers().len() == 0 ==> current is None,
            self.wallpapers().len() > 0 ==> (current matches Some(path) && path@
                == self.wallpapers()[self.position()]),
    {
        if self.store.len() == 0 {
            None
        } else {
            Some(self.store[self.current_id].clone())
        }
    }
}

/// Membership test against the cached list.
fn contains_path(store: &Vec<String>, path: &String) -> (found: bool)
    ensures
        found == store.deep_view().contains(path@),
{
    let mut i: usize = 0;
    while i < store.len()
        invariant
            i <= store.len(),
            forall|j: int| 0 <= j < i ==> store.deep_view()[j] != path@,
        decreases store.len() - i,
    {
        if store[i] == *path {
            assert(store.deep_view()[i as int] == path@);
            return true;
        }
        i += 1;
    }
    false
}

/// Relies on glob::glob: iterating the returned walk yields the paths that
/// currently match the pattern built from the directory and extension.
/// What matches depends on the filesystem at the time of the call, so
/// nothing is promised of the result.
#[verifier::external_body]
fn glob_paths(dir: &String, extension: &String) -> Vec<String> {
    let pattern = format!("{}/**/*.{}", dir, extension);
    match glob::glob(&pattern) {
        Ok(paths) => paths
            .filter_map(|entry| entry.ok())
            .map(|path| path.to_string_lossy().into_owned())
            .collect(),
        Err(_) => Vec::new(),
    }
}

/// Relies on std::path::Path::is_dir: whether the path currently names a
/// directory on disk. The answer depends on the filesystem at the time of
/// the call, so nothing is promised of the result.
#[verifier::external_body]
fn path_is_dir(path: &String) -> bool {
    std::path::Path::new(path).is_dir()
}

} // verus!
