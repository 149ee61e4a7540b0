use vstd::prelude::*;
use hash_hasher::{HashBuildHasher, HashHasher, HashedSet};
use std::collections::hash_map::DefaultHasher;
use std::hash::{Hash, Hasher};
use crate::error::Error;
use crate::records::{FlatView, FlattenedQuery};
use crate::records::default_title;
use crate::resume::{ResumeInfo, adopted_appid, oldest};

verus! {

/// The hasher that hash_hasher's sets use; it passes a `u64` key through as its hash.
#[verifier::external_type_specification]
#[verifier::external_body]
pub struct ExHashHasher(HashHasher);

/// Builds the hasher of a hash_hasher set.
#[verifier::external_type_specification]
#[verifier::external_body]
#[verifier::reject_recursive_types(H)]
pub struct ExBuildHasherDefault<H>(std::hash::BuildHasherDefault<H>);

/// The 64-bit hash of a record.
pub uninterp spec fn record_hash(q: FlatView) -> u64;

/// Relies on std's `DefaultHasher`, whose `new` uses fixed keys, fed by the
/// record's derived `Hash`: the hash depends on the record's field values alone.
#[verifier::external_body]
fn hash_record(q: &FlattenedQuery) -> (h: u64)
    ensures
        h == record_hash(q@),
{
    let mut hasher = DefaultHasher::new();
    q.hash(&mut hasher);
    hasher.finish()
}

/// Relies on `HashSet::with_hasher` with hash_hasher's `HashBuildHasher`: the set starts empty.
#[verifier::external_body]
fn empty_seen_set() -> (s: HashedSet<u64>)
    ensures
        s@ == Set::<u64>::empty(),
{
    HashedSet::with_hasher(HashBuildHasher::default())
}

/// Relies on `HashSet::insert`: the key is added. hash_hasher's hasher is
/// deterministic, so the set behaves as a set of keys.
#[verifier::external_body]
fn seen_insert(s: &mut HashedSet<u64>, h: u64)
    ensures
        final(s)@ == old(s)@.insert(h),
{
    s.insert(h);
}

/// Relies on `HashSet::contains`: whether the key is in the set.
#[verifier::external_body]
fn seen_contains(s: &HashedSet<u64>, h: u64) -> (r: bool)
    ensures
        r == s@.contains(h),
{
    s.contains(&h)
}

/// Relies on `HashSet::len`: the number of keys in the set.
#[verifier::external_body]
fn seen_len(s: &HashedSet<u64>) -> (r: usize)
    ensures
        r == s@.len(),
{
    s.len()
}

/// What an insert asks of its caller.
#[derive(Debug, Clone, Copy, PartialEq, Eq, Structural)]
pub enum InsertStep {
    /// The staging area is full: flush it, then call `continue_insert`.
    Flush,
    /// Every novel record of the batch is staged.
    Done,
}

/// The state of a buffer, as values.
pub struct CacheView {
    /// Hashes of every record accepted so far.
    pub seen: Set<u64>,
    /// Records awaiting a flush, in the order received.
    pub staged: Seq<FlatView>,
    /// How many records may be staged.
    pub capacity: nat,
    /// How many staged records the current flush has already written.
    pub write_index: nat,
    /// Novel records of the batch being inserted that are not staged yet, with their hashes.
    pub pending: Seq<(FlatView, u64)>,
    /// The rows written to the sink so far, in order.
    pub written: Seq<FlatView>,
}

/// A buffer's invariant: it stages at least one record, never more than its
/// capacity, and its write cursor stays within the staged records.
pub open spec fn wf(s: CacheView) -> bool {
    &&& s.capacity >= 1
    &&& s.write_index <= s.staged.len() <= s.capacity
}

/// A buffer with nothing seen, staged or written.
pub open spec fn empty_cache(capacity: nat) -> CacheView {
    CacheView {
        seen: Set::empty(),
        staged: Seq::empty(),
        capacity,
        write_index: 0,
        pending: Seq::empty(),
        written: Seq::empty(),
    }
}

/// The staged records that a flush still has to write.
pub open spec fn unwritten(s: CacheView) -> Seq<FlatView> {
    s.staged.subrange(s.write_index as int, s.staged.len() as int)
}

/// The records of a batch whose hash is not among `seen`, with their hashes, in
/// order. Two equal records of one batch are both novel.
pub open spec fn novel(seen: Set<u64>, batch: Seq<FlatView>) -> Seq<(FlatView, u64)>
    decreases batch.len(),
{
    if batch.len() == 0 {
        Seq::empty()
    } else {
        let prev = novel(seen, batch.drop_last());
        let q = batch.last();
        if seen.contains(record_hash(q)) {
            prev
        } else {
            prev.push((q, record_hash(q)))
        }
    }
}

/// The start of an insert: the batch's novel records become the pending ones.
pub open spec fn start_insert(s: CacheView, batch: Seq<FlatView>) -> CacheView {
    CacheView { pending: novel(s.seen, batch), ..s }
}

/// Stages pending records in order, recording each one's hash first, until none is
/// left or the staging area is full.
pub open spec fn stage(s: CacheView) -> (CacheView, InsertStep)
    decreases s.pending.len(),
{
    if s.pending.len() == 0 {
        (s, InsertStep::Done)
    } else {
        let seen = s.seen.insert(s.pending[0].1);
        if s.staged.len() >= s.capacity {
            (CacheView { seen, ..s }, InsertStep::Flush)
        } else {
            stage(
                CacheView {
                    seen,
                    staged: s.staged.push(s.pending[0].0),
                    pending: s.pending.drop_first(),
                    ..s
                },
            )
        }
    }
}

/// A flush that wrote every unwritten staged record: the staging area empties.
pub open spec fn flush_done(s: CacheView) -> CacheView {
    CacheView { staged: Seq::empty(), write_index: 0, written: s.written + unwritten(s), ..s }
}

/// A flush that wrote the first `n` unwritten staged records and then failed: the
/// write cursor moves past them.
pub open spec fn flush_failed(s: CacheView, n: nat) -> CacheView {
    CacheView {
        write_index: s.write_index + n,
        written: s.written + unwritten(s).subrange(0, n as int),
        ..s
    }
}

/// The values of a sequence of records.
pub open spec fn record_views(v: Seq<FlattenedQuery>) -> Seq<FlatView> {
    v.map_values(|q: FlattenedQuery| q@)
}

/// The values of a sequence of records paired with their hashes.
pub open spec fn pending_views(v: Seq<(FlattenedQuery, u64)>) -> Seq<(FlatView, u64)> {
    v.map_values(|p: (FlattenedQuery, u64)| (p.0@, p.1))
}

/// A fixed-capacity staging area in front of an append-only sink that skips
/// records it has seen before, by their 64-bit hash.
///
/// The sink itself belongs to the caller: a flush writes the rows of
/// [`ScraperCache::unwritten`] in order and reports the outcome to
/// [`ScraperCache::flush_cache`]. Two distinct records with the same hash count as
/// one; the chance of that is about n²/2⁶⁵ for n records.
pub struct ScraperCache {
    seen_set: HashedSet<u64>,
    cache: Vec<FlattenedQuery>,
    capacity: usize,
    write_index: usize,
    pending: Vec<(FlattenedQuery, u64)>,
    written: Ghost<Seq<FlatView>>,
}

impl View for ScraperCache {
    type V = CacheView;

    closed spec fn view(&self) -> CacheView {
        CacheView {
            seen: self.seen_set@,
            staged: record_views(self.cache@),
            capacity: self.capacity as nat,
            write_index: self.write_index as nat,
            pending: pending_views(self.pending@),
            written: self.written@,
        }
    }
}

/// A buffer rebuilt from a persisted scrape, with what the scrape needs to go on.
pub struct ResumeScraperCache {
    pub cache: ScraperCache,
    pub resume_info: ResumeInfo,
}

impl ScraperCache {
    /// An empty buffer that stages up to `cache_size` records; a size of zero
    /// stages one record at a time.
    pub fn new(cache_size: usize) -> (r: Self)
        ensures
            r@ == empty_cache(if cache_size == 0 { 1 } else { cache_size as nat }),
            wf(r@),
    {
        let capacity = if cache_size == 0 { 1 } else { cache_size };
        let r = ScraperCache {
            seen_set: empty_seen_set(),
            cache: Vec::new(),
            capacity,
            write_index: 0,
            pending: Vec::new(),
            written: Ghost(Seq::empty()),
        };
        proof {
            assert(record_views(r.cache@) == Seq::<FlatView>::empty());
            assert(pending_views(r.pending@) == Seq::<(FlatView, u64)>::empty());
        }
        r
    }

    /// Room left in the staging area.
    pub fn cache_free_space(&self) -> (r: usize)
        requires
            wf(self@),
        ensures
            r == self@.capacity - self@.staged.len(),
    {
        self.capacity - self.cache.len()
    }

    /// Whether the staging area is full.
    pub fn cache_full(&self) -> (r: bool)
        ensures
            r == (self@.staged.len() == self@.capacity),
    {
        self.cache.len() == self.capacity
    }

    /// Number of distinct record hashes seen.
    pub fn seen_count(&self) -> (r: usize)
        ensures
            r == self@.seen.len(),
    {
        seen_len(&self.seen_set)
    }

    /// The staged records that the next flush has to write, in order: those
    /// from the write cursor on.
    pub fn unwritten(&self) -> (r: &[FlattenedQuery])
        requires
            wf(self@),
        ensures
            record_views(r@) == unwritten(self@),
    {
        let s = self.cache.as_slice();
        let r = &s[self.write_index..self.cache.len()];
        proof {
            assert(record_views(r@) =~= unwritten(self@));
        }
        r
    }

    /// Records the outcome of a flush of [`ScraperCache::unwritten`]: `Ok` when every
    /// row was written, in which case the staging area empties; `Err((n, e))` when
    /// the first `n` rows were written and the next failed with `e`, in which case
    /// the write cursor moves past them, so that a retried flush resumes there, and
    /// `e` is returned.
    pub fn flush_cache(&mut self, outcome: Result<(), (usize, Error)>) -> (r: Result<(), Error>)
        requires
            wf(old(self)@),
            outcome matches Err((n, _)) ==> n < unwritten(old(self)@).len(),
        ensures
            wf(final(self)@),
            outcome is Ok ==> r is Ok && final(self)@ == flush_done(old(self)@),
            outcome matches Err((n, e)) ==> (r == Err::<(), Error>(e) && final(self)@
                == flush_failed(old(self)@, n as nat)),
    {
        match outcome {
            Ok(()) => {
                let ghost owed = unwritten(self@);
                self.written = Ghost(self.written@ + owed);
                self.cache = Vec::new();
                self.write_index = 0;
                proof {
                    assert(record_views(self.cache@) =~= Seq::<FlatView>::empty());
                }
                Ok(())
            },
            Err((n, e)) => {
                let ghost owed = unwritten(self@);
                self.written = Ghost(self.written@ + owed.subrange(0, n as int));
                self.write_index = self.write_index + n;
                Err(e)
            },
        }
    }

    /// The batch's records whose hash has not been seen, with their hashes.
    fn filter_data(&self, data: &[FlattenedQuery]) -> (r: Vec<(FlattenedQuery, u64)>)
        ensures
            pending_views(r@) == novel(self@.seen, record_views(data@)),
    {
        let mut r: Vec<(FlattenedQuery, u64)> = Vec::new();
        let mut i: usize = 0;
        while i < data.len()
            invariant
                i <= data@.len(),
                pending_views(r@) == novel(self@.seen, record_views(data@.subrange(0, i as int))),
            decreases data@.len() - i,
        {
            let q = &data[i];
            let h = hash_record(q);
            proof {
                let b = record_views(data@.subrange(0, i + 1));
                assert(b.drop_last() =~= record_views(data@.subrange(0, i as int)));
                assert(b.last() == q@);
            }
            if !seen_contains(&self.seen_set, h) {
                let ghost before = r@;
                r.push((q.clone(), h));
                proof {
                    assert(pending_views(r@) =~= pending_views(before).push((q@, h)));
                }
            }
            i = i + 1;
        }
        proof {
            assert(data@.subrange(0, data@.len() as int) =~= data@);
        }
        r
    }

    /// Stages pending records until none is left or the staging area is full.
    fn process_data(&mut self) -> (r: InsertStep)
        requires
            wf(old(self)@),
        ensures
            wf(final(self)@),
            (final(self)@, r) == stage(old(self)@),
    {
        loop
            invariant
                wf(self@),
                stage(self@) == stage(old(self)@),
            decreases self.pending.len(),
        {
            if self.pending.len() == 0 {
                return InsertStep::Done;
            }
            let ghost s = self@;
            let h = self.pending[0].1;
            seen_insert(&mut self.seen_set, h);
            if self.cache.len() >= self.capacity {
                assert(self@ == CacheView { seen: s.seen.insert(s.pending[0].1), ..s });
                return InsertStep::Flush;
            }
            let (q, _) = self.pending.remove(0);
            self.cache.push(q);
            proof {
                assert(record_views(self.cache@) =~= s.staged.push(s.pending[0].0));
                assert(pending_views(self.pending@) =~= s.pending.drop_first());
            }
        }
    }

    /// Starts inserting a batch. Fails with `NoDataAfterFiltering` when every
    /// record's hash was seen before (an empty batch included), leaving the buffer
    /// as it was but for an abandoned earlier insert. Otherwise stages the novel
    /// records in order, each one's hash recorded first, until the staging area is
    /// full (`Flush`: flush, then `continue_insert`) or all are staged (`Done`).
    pub fn insert(&mut self, data: &[FlattenedQuery]) -> (r: Result<InsertStep, Error>)
        requires
            wf(old(self)@),
        ensures
            wf(final(self)@),
            novel(old(self)@.seen, record_views(data@)).len() == 0 ==> (r matches Err(
                Error::NoDataAfterFiltering,
            ) && final(self)@ == start_insert(old(self)@, record_views(data@))),
            novel(old(self)@.seen, record_views(data@)).len() > 0 ==> (r matches Ok(step) && (
            final(self)@, step) == stage(start_insert(old(self)@, record_views(data@)))),
    {
        let novel = self.filter_data(data);
        let empty = novel.len() == 0;
        self.pending = novel;
        if empty {
            Err(Error::NoDataAfterFiltering)
        } else {
            Ok(self.process_data())
        }
    }

    /// Goes on with an insert that stopped for a flush.
    pub fn continue_insert(&mut self) -> (r: InsertStep)
        requires
            wf(old(self)@),
        ensures
            wf(final(self)@),
            (final(self)@, r) == stage(old(self)@),
    {
        self.process_data()
    }
}

/// What replaying persisted records rebuilds, as values.
pub struct ResumeView {
    pub seen: Set<u64>,
    pub appid: Seq<char>,
    pub timestamp: u64,
}

/// Nothing replayed yet.
pub open spec fn resume_start() -> ResumeView {
    ResumeView { seen: Set::empty(), appid: default_title(), timestamp: u64::MAX }
}

/// Replaying one record: its hash is seen, its product adopted, its creation time
/// folded into the oldest; `None` when it belongs to another product.
pub open spec fn replay_step(s: ResumeView, q: FlatView) -> Option<ResumeView> {
    match adopted_appid(s.appid, q) {
        Some(appid) => Some(
            ResumeView { seen: s.seen.insert(record_hash(q)), appid, timestamp: oldest(s.timestamp, q) },
        ),
        None => None,
    }
}

/// Replaying records in order; `None` when one of them belongs to another product.
pub open spec fn replay_all(s: ResumeView, rows: Seq<FlatView>) -> Option<ResumeView>
    decreases rows.len(),
{
    if rows.len() == 0 {
        Some(s)
    } else {
        match replay_all(s, rows.drop_last()) {
            Some(t) => replay_step(t, rows.last()),
            None => None,
        }
    }
}

impl ResumeScraperCache {
    /// What the replay has rebuilt so far.
    pub open spec fn resume_view(&self) -> ResumeView {
        ResumeView {
            seen: self.cache@.seen,
            appid: self.resume_info.appid@,
            timestamp: self.resume_info.timestamp.0,
        }
    }

    /// Replays one row of a persisted scrape, in file order. A row that parsed
    /// is folded in (`Ok(None)`), or fails the resume with `MultipleAppids` when it
    /// belongs to another product than the rows before it. A row that did not parse
    /// fails the resume with its error when `fail_on_error` holds, and is otherwise
    /// skipped (`Ok(Some(error))`, for the caller to report).
    pub fn replay(&mut self, row: Result<FlattenedQuery, Error>, fail_on_error: bool) -> (r: Result<
        Option<Error>,
        Error,
    >)
        requires
            wf(old(self).cache@),
        ensures
            wf(final(self).cache@),
            final(self).cache@.staged == old(self).cache@.staged,
            final(self).cache@.capacity == old(self).cache@.capacity,
            final(self).cache@.write_index == old(self).cache@.write_index,
            final(self).cache@.pending == old(self).cache@.pending,
            final(self).cache@.written == old(self).cache@.written,
            match row {
                Ok(q) => match replay_step(old(self).resume_view(), q@) {
                    Some(n) => r matches Ok(None) && final(self).resume_view() == n,
                    None => r matches Err(Error::MultipleAppids),
                },
                Err(e) => if fail_on_error {
                    r == Err::<Option<Error>, Error>(e)
                } else {
                    r == Ok::<Option<Error>, Error>(Some(e)) && final(self).resume_view()
                        == old(self).resume_view()
                },
            },
    {
        match row {
            Ok(q) => {
                let h = hash_record(&q);
                seen_insert(&mut self.cache.seen_set, h);
                match self.resume_info.update(&q) {
                    Ok(()) => Ok(None),
                    Err(e) => Err(e),
                }
            },
            Err(e) => {
                if fail_on_error {
                    Err(e)
                } else {
                    Ok(Some(e))
                }
            },
        }
    }
}

impl ScraperCache {
    /// The start of a resume: an empty buffer of `cache_size` records (at least
    /// one) whose seen hashes and resume information are rebuilt by replaying the
    /// persisted rows with [`ResumeScraperCache::replay`].
    pub fn start_resume(cache_size: usize) -> (r: ResumeScraperCache)
        ensures
            r.cache@ == empty_cache(if cache_size == 0 { 1 } else { cache_size as nat }),
            wf(r.cache@),
            r.resume_view() == resume_start(),
    {
        ResumeScraperCache { cache: ScraperCache::new(cache_size), resume_info: ResumeInfo::default() }
    }
}

/// The state after an insert has run to its end, each flush it asked for having
/// written everything it owed: record by record, the hash is seen, a full staging
/// area is flushed, and the record is staged.
pub open spec fn absorb(s: CacheView) -> CacheView
    decreases s.pending.len(),
{
    if s.pending.len() == 0 {
        s
    } else {
        let seen = CacheView { seen: s.seen.insert(s.pending[0].1), ..s };
        let room = if seen.staged.len() >= seen.capacity {
            flush_done(seen)
        } else {
            seen
        };
        absorb(
            CacheView {
                staged: room.staged.push(s.pending[0].0),
                pending: room.pending.drop_first(),
                ..room
            },
        )
    }
}

/// The records of a sequence of records paired with their hashes.
pub open spec fn pending_records(p: Seq<(FlatView, u64)>) -> Seq<FlatView> {
    p.map_values(|e: (FlatView, u64)| e.0)
}

/// The hashes of a sequence of records paired with their hashes.
pub open spec fn pending_hashes(p: Seq<(FlatView, u64)>) -> Set<u64> {
    p.map_values(|e: (FlatView, u64)| e.1).to_set()
}

/// Everything a buffer has written or still owes, in order.
pub open spec fn sink_content(s: CacheView) -> Seq<FlatView> {
    s.written + unwritten(s) + pending_records(s.pending)
}

/// Taking the first of a sequence of records paired with their hashes apart.
proof fn lemma_pending_hashes_split(p: Seq<(FlatView, u64)>)
    requires
        p.len() > 0,
    ensures
        pending_hashes(p) == pending_hashes(p.drop_first()).insert(p[0].1),
        pending_records(p) == seq![p[0].0] + pending_records(p.drop_first()),
{
    let hs = p.map_values(|e: (FlatView, u64)| e.1);
    let rest = p.drop_first().map_values(|e: (FlatView, u64)| e.1);
    assert forall|h: u64| pending_hashes(p).contains(h) implies pending_hashes(p.drop_first()).insert(
        p[0].1,
    ).contains(h) by {
        let i = choose|i: int| 0 <= i < hs.len() && hs[i] == h;
        if i > 0 {
            assert(rest[i - 1] == h);
        }
    }
    assert forall|h: u64| pending_hashes(p.drop_first()).insert(p[0].1).contains(h) implies pending_hashes(
        p,
    ).contains(h) by {
        if h == p[0].1 {
            assert(hs[0] == h);
        } else {
            let i = choose|i: int| 0 <= i < rest.len() && rest[i] == h;
            assert(hs[i + 1] == h);
        }
    }
    assert(pending_hashes(p) =~= pending_hashes(p.drop_first()).insert(p[0].1));
    assert(pending_records(p) =~= seq![p[0].0] + pending_records(p.drop_first()));
}

/// Running an insert to its end loses, duplicates and reorders nothing, sees the
/// hash of every record it took, and leaves nothing pending.
pub proof fn lemma_absorb(s: CacheView)
    requires
        wf(s),
    ensures
        wf(absorb(s)),
        absorb(s).pending.len() == 0,
        sink_content(absorb(s)) == sink_content(s),
        absorb(s).seen == s.seen + pending_hashes(s.pending),
        s.write_index == 0 ==> absorb(s).write_index == 0,
    decreases s.pending.len(),
{
    if s.pending.len() == 0 {
        assert(pending_hashes(s.pending) =~= Set::<u64>::empty());
        assert(s.seen + pending_hashes(s.pending) =~= s.seen);
    } else {
        lemma_pending_hashes_split(s.pending);
        let seen = CacheView { seen: s.seen.insert(s.pending[0].1), ..s };
        let room = if seen.staged.len() >= seen.capacity {
            flush_done(seen)
        } else {
            seen
        };
        let next = CacheView {
            staged: room.staged.push(s.pending[0].0),
            pending: room.pending.drop_first(),
            ..room
        };
        assert(sink_content(flush_done(seen)) =~= sink_content(seen));
        assert(unwritten(next) =~= unwritten(room).push(s.pending[0].0));
        assert(sink_content(next) =~= sink_content(room));
        lemma_absorb(next);
        assert(next.seen + pending_hashes(next.pending) =~= s.seen + pending_hashes(s.pending));
    }
}

/// The caller's loop computes `absorb`: staging until a flush is asked for, then
/// flushing everything owed, and so on until the insert is done.
pub proof fn lemma_absorb_steps(s: CacheView)
    requires
        wf(s),
    ensures
        absorb(s) == (if stage(s).1 == InsertStep::Done {
            stage(s).0
        } else {
            absorb(flush_done(stage(s).0))
        }),
    decreases s.pending.len(),
{
    if s.pending.len() > 0 {
        let seen = CacheView { seen: s.seen.insert(s.pending[0].1), ..s };
        if s.staged.len() >= s.capacity {
            let f = flush_done(seen);
            assert(f.seen.insert(s.pending[0].1) =~= f.seen);
            assert(CacheView { seen: f.seen.insert(f.pending[0].1), ..f } == f);
        } else {
            let next = CacheView {
                staged: seen.staged.push(s.pending[0].0),
                pending: seen.pending.drop_first(),
                ..seen
            };
            lemma_absorb_steps(next);
        }
    }
}

/// With nothing seen, every record of a batch is novel.
pub proof fn lemma_novel_from_empty(batch: Seq<FlatView>)
    ensures
        pending_records(novel(Set::empty(), batch)) == batch,
    decreases batch.len(),
{
    if batch.len() > 0 {
        lemma_novel_from_empty(batch.drop_last());
        assert(pending_records(novel(Set::empty(), batch)) =~= pending_records(
            novel(Set::empty(), batch.drop_last()),
        ).push(batch.last()));
        assert(batch.drop_last().push(batch.last()) =~= batch);
    }
}

/// After an insert, the hash of every record of the batch is seen: the same
/// batch has nothing novel any more.
pub proof fn lemma_novel_after_absorbing(seen: Set<u64>, batch: Seq<FlatView>)
    ensures
        novel(seen + pending_hashes(novel(seen, batch)), batch).len() == 0,
    decreases batch.len(),
{
    if batch.len() > 0 {
        let prefix = batch.drop_last();
        let q = batch.last();
        let all = seen + pending_hashes(novel(seen, batch));
        let part = seen + pending_hashes(novel(seen, prefix));
        lemma_novel_after_absorbing(seen, prefix);
        assert(part.subset_of(all)) by {
            assert forall|h: u64| part.contains(h) implies all.contains(h) by {
                if !seen.contains(h) {
                    let p = novel(seen, prefix);
                    let hs = p.map_values(|e: (FlatView, u64)| e.1);
                    let i = choose|i: int| 0 <= i < hs.len() && hs[i] == h;
                    if !seen.contains(record_hash(q)) {
                        let full = p.push((q, record_hash(q))).map_values(|e: (FlatView, u64)| e.1);
                        assert(full[i] == h);
                    }
                }
            }
        }
        lemma_novel_subset(part, all, prefix);
        if !seen.contains(record_hash(q)) {
            let p = novel(seen, batch);
            let hs = p.map_values(|e: (FlatView, u64)| e.1);
            assert(hs[p.len() - 1] == record_hash(q));
        }
        assert(all.contains(record_hash(q)));
    }
}

/// Seeing more leaves no more novel records.
pub proof fn lemma_novel_subset(small: Set<u64>, big: Set<u64>, batch: Seq<FlatView>)
    requires
        small.subset_of(big),
        novel(small, batch).len() == 0,
    ensures
        novel(big, batch).len() == 0,
    decreases batch.len(),
{
    if batch.len() > 0 {
        if !small.contains(record_hash(batch.last())) {
            assert(novel(small, batch).len() > 0);
        }
        lemma_novel_subset(small, big, batch.drop_last());
    }
}

/// Inserting a batch of distinct records into an empty buffer, and running the
/// insert to its end, leaves the records written or staged exactly the batch, each
/// record once; inserting the same batch again finds nothing new, so it fails with
/// `NoDataAfterFiltering` and adds nothing.
pub proof fn lemma_insert_twice(capacity: nat, batch: Seq<FlatView>)
    requires
        capacity >= 1,
        batch.no_duplicates(),
    ensures
        ({
            let s = absorb(start_insert(empty_cache(capacity), batch));
            &&& s.written + s.staged == batch
            &&& (s.written + s.staged).no_duplicates()
            &&& novel(s.seen, batch).len() == 0
        }),
{
    let s0 = start_insert(empty_cache(capacity), batch);
    lemma_absorb(s0);
    lemma_novel_from_empty(batch);
    lemma_novel_after_absorbing(Set::empty(), batch);
    let s = absorb(s0);
    assert(Set::<u64>::empty() + pending_hashes(novel(Set::empty(), batch)) =~= pending_hashes(
        novel(Set::empty(), batch),
    ));
    assert(unwritten(s0) =~= Seq::<FlatView>::empty());
    assert(sink_content(s0) =~= batch);
    assert(pending_records(s.pending) =~= Seq::<FlatView>::empty());
    assert(unwritten(s) =~= s.staged);
    assert(sink_content(s) =~= s.written + s.staged);
}

/// A flush that fails after writing `k` of the rows it owes leaves exactly the
/// others owed, so a retried flush writes those and nothing before them: over the
/// two attempts, every owed row is written once, in order.
pub proof fn lemma_retry_after_partial_flush(s: CacheView, k: nat)
    requires
        wf(s),
        k < unwritten(s).len(),
    ensures
        unwritten(flush_failed(s, k)) == unwritten(s).subrange(k as int, unwritten(s).len() as int),
        flush_done(flush_failed(s, k)).written == s.written + unwritten(s),
        flush_done(flush_failed(s, k)).staged.len() == 0,
{
    let f = flush_failed(s, k);
    assert(unwritten(f) =~= unwritten(s).subrange(k as int, unwritten(s).len() as int));
    assert(unwritten(s).subrange(0, k as int) + unwritten(s).subrange(
        k as int,
        unwritten(s).len() as int,
    ) =~= unwritten(s));
    assert(flush_done(f).written =~= s.written + unwritten(s));
}

/// Replaying records of one product whose hashes differ succeeds, sees one hash
/// per record, and finds the oldest creation time among them.
pub proof fn lemma_resume_round_trip(rows: Seq<FlatView>, appid: Seq<char>)
    requires
        rows.len() > 0,
        forall|i: int| 0 <= i < rows.len() ==> #[trigger] rows[i].appid == appid,
        forall|i: int, j: int|
            0 <= i < j < rows.len() ==> record_hash(#[trigger] rows[i]) != record_hash(
                #[trigger] rows[j],
            ),
    ensures
        replay_all(resume_start(), rows) matches Some(t) && {
            &&& t.seen.len() == rows.len()
            &&& t.appid == appid
            &&& forall|i: int| 0 <= i < rows.len() ==> t.timestamp <= #[trigger] rows[i].timestamp_created.0
            &&& exists|i: int| 0 <= i < rows.len() && t.timestamp == #[trigger] rows[i].timestamp_created.0
        },
    decreases rows.len(),
{
    let prefix = rows.drop_last();
    let q = rows.last();
    if prefix.len() == 0 {
        assert(replay_all(resume_start(), prefix) == Some(resume_start()));
        assert(Set::<u64>::empty().insert(record_hash(q)).len() == 1);
        assert(rows[0] == q);
    } else {
        assert forall|i: int| 0 <= i < prefix.len() implies #[trigger] prefix[i].appid == appid by {
            assert(prefix[i] == rows[i]);
        }
        assert forall|i: int, j: int| 0 <= i < j < prefix.len() implies record_hash(#[trigger] prefix[i])
            != record_hash(#[trigger] prefix[j]) by {
            assert(prefix[i] == rows[i] && prefix[j] == rows[j]);
        }
        lemma_resume_round_trip(prefix, appid);
        let t = replay_all(resume_start(), prefix).unwrap();
        lemma_replay_seen(prefix);
        assert(!t.seen.contains(record_hash(q))) by {
            if t.seen.contains(record_hash(q)) {
                let i = choose|i: int| 0 <= i < prefix.len() && record_hash(prefix[i]) == record_hash(q);
                assert(prefix[i] == rows[i]);
                assert(q == rows[rows.len() - 1]);
            }
        }
        assert(q == rows[rows.len() - 1]);
        lemma_replay_finite(prefix);
        let n = replay_step(t, q).unwrap();
        assert forall|i: int| 0 <= i < rows.len() implies n.timestamp <= #[trigger] rows[i].timestamp_created.0 by {
            if i < prefix.len() {
                assert(prefix[i] == rows[i]);
            }
        }
        let k = choose|i: int| 0 <= i < prefix.len() && t.timestamp == #[trigger] prefix[i].timestamp_created.0;
        assert(prefix[k] == rows[k]);
        if n.timestamp == q.timestamp_created.0 {
            assert(rows[rows.len() - 1].timestamp_created.0 == n.timestamp);
        } else {
            assert(rows[k].timestamp_created.0 == n.timestamp);
        }
    }
}

/// A successful replay has seen exactly the hashes of the records replayed.
proof fn lemma_replay_seen(rows: Seq<FlatView>)
    requires
        replay_all(resume_start(), rows) is Some,
    ensures
        forall|h: u64| replay_all(resume_start(), rows).unwrap().seen.contains(h) <==> exists|i: int|
            0 <= i < rows.len() && record_hash(#[trigger] rows[i]) == h,
    decreases rows.len(),
{
    if rows.len() > 0 {
        let prefix = rows.drop_last();
        lemma_replay_seen(prefix);
        let t = replay_all(resume_start(), rows).unwrap();
        assert forall|h: u64| t.seen.contains(h) implies exists|i: int|
            0 <= i < rows.len() && record_hash(#[trigger] rows[i]) == h by {
            if h != record_hash(rows.last()) {
                let i = choose|i: int| 0 <= i < prefix.len() && record_hash(#[trigger] prefix[i]) == h;
                assert(prefix[i] == rows[i]);
            } else {
                assert(record_hash(rows[rows.len() - 1]) == h);
            }
        }
        assert forall|h: u64| (exists|i: int| 0 <= i < rows.len() && record_hash(#[trigger] rows[i]) == h)
            implies t.seen.contains(h) by {
            let i = choose|i: int| 0 <= i < rows.len() && record_hash(#[trigger] rows[i]) == h;
            if i < prefix.len() {
                assert(prefix[i] == rows[i]);
            }
        }
    }
}

/// The hashes seen by a replay form a finite set.
proof fn lemma_replay_finite(rows: Seq<FlatView>)
    requires
        replay_all(resume_start(), rows) is Some,
    ensures
        replay_all(resume_start(), rows).unwrap().seen.finite(),
    decreases rows.len(),
{
    if rows.len() > 0 {
        lemma_replay_finite(rows.drop_last());
    }
}

/// What a scrape makes of a batch's outcome: when `keep_going` holds, a batch
/// with nothing new is no reason to stop and counts as an empty batch.
pub fn end_after_zero_wrap<T>(item: Result<Vec<T>, Error>, keep_going: bool) -> (r: Result<Vec<T>, Error>)
    ensures
        (item matches Err(Error::NoDataAfterFiltering) && keep_going) ==> (r matches Ok(v) && v@.len() == 0),
        !(item matches Err(Error::NoDataAfterFiltering) && keep_going) ==> r == item,
{
    match item {
        Err(Error::NoDataAfterFiltering) if keep_going => Ok(Vec::new()),
        other => other,
    }
}

} // verus!
