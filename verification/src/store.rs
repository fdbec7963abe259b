//! The session store: cache-aside reads over a store of record, append-only
//! message mutation, and invalidate-on-write cache maintenance.
//!
//! The store of record and the cache are modelled as association vectors
//! with unique keys; their mathematical value is a `Map` derived by
//! [`entry_map`]. Every operation's contract is stated over those maps, and
//! the store's well-formedness ties the two together: an unexpired cache
//! entry always agrees with the store of record, which is why a cache-aside
//! read can be proved equivalent to a direct read of the store of record.

use vstd::prelude::*;
use vstd::multiset::Multiset;

use crate::session::Message;
use crate::session::Session;
use crate::session::SessionView;

verus! {

broadcast use vstd::seq_lib::group_to_multiset_ensures;

/// Fixed cache time-to-live: one hour, in milliseconds.
pub const CACHE_TTL_MS: i64 = 3600000;

/// Document-store failure. The in-memory store of record can fail only by
/// exhausting its identifier space.
#[derive(Debug)]
pub struct StoreError;

/// A cached session snapshot together with its expiry instant.
pub struct CacheEntry {
    pub session: Session,
    pub expires_at_ms: i64,
}

/// The mathematical value of a [`CacheEntry`].
#[verifier::ext_equal]
pub struct CacheEntryView {
    pub session: SessionView,
    pub expires_at_ms: i64,
}

impl View for CacheEntry {
    type V = CacheEntryView;

    open spec fn view(&self) -> CacheEntryView {
        CacheEntryView { session: self.session@, expires_at_ms: self.expires_at_ms }
    }
}

/// Whether some entry of the association sequence bears the key `id`.
pub open spec fn has_key<V>(s: Seq<(u64, V)>, id: u64) -> bool {
    exists|i: int| 0 <= i < s.len() && (#[trigger] s[i]).0 == id
}

/// No two entries bear the same key.
pub open spec fn keys_unique<V>(s: Seq<(u64, V)>) -> bool {
    forall|i: int, j: int| 0 <= i < j < s.len() ==> (#[trigger] s[i]).0 != (#[trigger] s[j]).0
}

/// The finite map that an association sequence denotes; a later entry wins,
/// though with unique keys the question does not arise.
pub open spec fn entry_map<V>(s: Seq<(u64, V)>) -> Map<u64, V>
    decreases s.len(),
{
    if s.len() == 0 {
        Map::empty()
    } else {
        entry_map(s.drop_last()).insert(s.last().0, s.last().1)
    }
}

pub proof fn lemma_entry_map_dom<V>(s: Seq<(u64, V)>)
    ensures
        forall|id: u64| #[trigger] entry_map(s).contains_key(id) <==> has_key(s, id),
        entry_map(s).dom().finite(),
    decreases s.len(),
{
    if s.len() == 0 {
    } else {
        lemma_entry_map_dom(s.drop_last());
        assert forall|id: u64| #[trigger] entry_map(s).contains_key(id) implies has_key(s, id) by {
            if id == s.last().0 {
                assert((s[s.len() - 1]).0 == id);
            } else {
                let i = choose|i: int|
                    0 <= i < s.drop_last().len() && (#[trigger] s.drop_last()[i]).0 == id;
                assert((s[i]).0 == id);
            }
        };
        assert forall|id: u64| has_key(s, id) implies #[trigger] entry_map(s).contains_key(id) by {
            let i = choose|i: int| 0 <= i < s.len() && (#[trigger] s[i]).0 == id;
            if i < s.len() - 1 {
                assert((s.drop_last()[i]).0 == id);
                assert(has_key(s.drop_last(), id));
            }
        };
    }
}

pub proof fn lemma_entry_map_get<V>(s: Seq<(u64, V)>, i: int)
    requires
        keys_unique(s),
        0 <= i < s.len(),
    ensures
        entry_map(s).contains_key(s[i].0),
        entry_map(s)[s[i].0] == s[i].1,
    decreases s.len(),
{
    if i == s.len() - 1 {
    } else {
        assert(keys_unique(s.drop_last()));
        assert(s.drop_last()[i] == s[i]);
        lemma_entry_map_get(s.drop_last(), i);
        assert(s.last().0 != s[i].0);
    }
}

pub proof fn lemma_entry_map_push<V>(s: Seq<(u64, V)>, id: u64, v: V)
    ensures
        entry_map(s.push((id, v))) == entry_map(s).insert(id, v),
{
    assert(s.push((id, v)).drop_last() =~= s);
    assert(s.push((id, v)).last() == (id, v));
}

pub proof fn lemma_entry_map_update<V>(s: Seq<(u64, V)>, i: int, v: V)
    requires
        keys_unique(s),
        0 <= i < s.len(),
    ensures
        entry_map(s.update(i, (s[i].0, v))) == entry_map(s).insert(s[i].0, v),
    decreases s.len(),
{
    let t = s.update(i, (s[i].0, v));
    if i == s.len() - 1 {
        assert(t.drop_last() =~= s.drop_last());
        assert(entry_map(t) == entry_map(s.drop_last()).insert(s[i].0, v));
        assert(entry_map(s).insert(s[i].0, v) =~= entry_map(s.drop_last()).insert(s[i].0, v));
    } else {
        assert(keys_unique(s.drop_last()));
        assert(s.drop_last()[i] == s[i]);
        lemma_entry_map_update(s.drop_last(), i, v);
        assert(t.drop_last() =~= s.drop_last().update(i, (s[i].0, v)));
        assert(t.last() == s.last());
        assert(s.last().0 != s[i].0);
        assert(entry_map(t) == entry_map(s.drop_last()).insert(s[i].0, v).insert(
            s.last().0,
            s.last().1,
        ));
        assert(entry_map(s.drop_last()).insert(s[i].0, v).insert(s.last().0, s.last().1)
            =~= entry_map(s.drop_last()).insert(s.last().0, s.last().1).insert(s[i].0, v));
    }
}

pub proof fn lemma_entry_map_remove<V>(s: Seq<(u64, V)>, i: int)
    requires
        keys_unique(s),
        0 <= i < s.len(),
    ensures
        entry_map(s.remove(i)) == entry_map(s).remove(s[i].0),
    decreases s.len(),
{
    let t = s.remove(i);
    if i == s.len() - 1 {
        assert(t =~= s.drop_last());
        lemma_entry_map_dom(s.drop_last());
        assert forall|j: int| 0 <= j < s.drop_last().len() implies (#[trigger] s.drop_last()[j]).0
            != s[i].0 by {
            assert(s.drop_last()[j] == s[j]);
        };
        assert(!has_key(s.drop_last(), s[i].0));
        assert(!entry_map(s.drop_last()).contains_key(s[i].0));
        assert(entry_map(s.drop_last()) =~= entry_map(s.drop_last()).insert(
            s[i].0,
            s[i].1,
        ).remove(s[i].0));
    } else {
        assert(keys_unique(s.drop_last()));
        assert(s.drop_last()[i] == s[i]);
        lemma_entry_map_remove(s.drop_last(), i);
        assert(t.drop_last() =~= s.drop_last().remove(i));
        assert(t.last() == s.last());
        assert(s.last().0 != s[i].0);
        assert(entry_map(t) == entry_map(s.drop_last()).remove(s[i].0).insert(
            s.last().0,
            s.last().1,
        ));
        assert(entry_map(s.drop_last()).remove(s[i].0).insert(s.last().0, s.last().1)
            =~= entry_map(s.drop_last()).insert(s.last().0, s.last().1).remove(s[i].0));
    }
}

pub proof fn lemma_entry_map_len<V>(s: Seq<(u64, V)>)
    requires
        keys_unique(s),
    ensures
        entry_map(s).dom().finite(),
        entry_map(s).len() == s.len(),
    decreases s.len(),
{
    lemma_entry_map_dom(s);
    if s.len() == 0 {
    } else {
        assert(keys_unique(s.drop_last()));
        lemma_entry_map_len(s.drop_last());
        lemma_entry_map_dom(s.drop_last());
        assert forall|j: int| 0 <= j < s.drop_last().len() implies (#[trigger] s.drop_last()[j]).0
            != s.last().0 by {
            assert(s.drop_last()[j] == s[j]);
            assert(s.last() == s[s.len() - 1]);
        };
        assert(!has_key(s.drop_last(), s.last().0));
        assert(!entry_map(s.drop_last()).contains_key(s.last().0));
    }
}

/// Linear scan for the entry bearing `id`.
fn assoc_find<V>(v: &Vec<(u64, V)>, id: u64) -> (r: Option<usize>)
    ensures
        (match r {
            Some(i) => i < v@.len() && v@[i as int].0 == id,
            None => !has_key(v@, id),
        }),
{
    let mut i: usize = 0;
    while i < v.len()
        invariant
            i <= v@.len(),
            forall|j: int| 0 <= j < i ==> (#[trigger] v@[j]).0 != id,
        decreases v@.len() - i,
    {
        if v[i].0 == id {
            return Some(i);
        }
        i = i + 1;
    }
    None
}

/// The association entries that the document vector denotes, at view level.
pub open spec fn doc_entries(docs: Seq<(u64, Session)>) -> Seq<(u64, SessionView)> {
    docs.map_values(|p: (u64, Session)| (p.0, p.1@))
}

/// The association entries that the cache vector denotes, at view level.
pub open spec fn cache_entries(cache: Seq<(u64, CacheEntry)>) -> Seq<(u64, CacheEntryView)> {
    cache.map_values(|p: (u64, CacheEntry)| (p.0, p.1@))
}

/// The session that `s` becomes when `m` is appended at clock reading `now`:
/// one more message at the end, and the update timestamp refreshed without
/// ever moving backwards.
pub open spec fn session_with_message(s: SessionView, m: Message, now: i64) -> SessionView {
    SessionView {
        messages: s.messages.push(m),
        updated_at_ms: if now > s.updated_at_ms {
            now
        } else {
            s.updated_at_ms
        },
        ..s
    }
}

/// The session that `s` becomes when its title is replaced at clock reading
/// `now`.
pub open spec fn session_with_title(s: SessionView, title: String, now: i64) -> SessionView {
    SessionView {
        title: Some(title),
        updated_at_ms: if now > s.updated_at_ms {
            now
        } else {
            s.updated_at_ms
        },
        ..s
    }
}

/// What an unexpired cache entry for `id` holds at clock reading `now`, if
/// any.
pub open spec fn cache_lookup(cache: Map<u64, CacheEntryView>, id: u64, now: i64) -> Option<
    SessionView,
> {
    if cache.contains_key(id) && now < cache[id].expires_at_ms {
        Some(cache[id].session)
    } else {
        None
    }
}

/// What a cache-aside read returns: the unexpired cached snapshot if there
/// is one, else the store of record's document.
pub open spec fn find_spec(
    docs: Map<u64, SessionView>,
    cache: Map<u64, CacheEntryView>,
    id: u64,
    now: i64,
) -> Option<SessionView> {
    match cache_lookup(cache, id, now) {
        Some(s) => Some(s),
        None => if docs.contains_key(id) {
            Some(docs[id])
        } else {
            None
        },
    }
}

/// The views of a sequence of sessions.
pub open spec fn sviews(s: Seq<Session>) -> Seq<SessionView> {
    s.map_values(|x: Session| x@)
}

/// The session values that the document vector holds, in vector order.
pub open spec fn doc_sessions(docs: Seq<(u64, Session)>) -> Seq<SessionView> {
    docs.map_values(|p: (u64, Session)| p.1@)
}

/// Nonincreasing update timestamps: newest first.
pub open spec fn sorted_desc(s: Seq<SessionView>) -> bool {
    forall|a: int, b: int|
        0 <= a <= b < s.len() ==> (#[trigger] s[a]).updated_at_ms >= (#[trigger] s[b]).updated_at_ms
}

/// Whether `v` is the value of some document of `docs`.
pub open spec fn listed_in(docs: Map<u64, SessionView>, v: SessionView) -> bool {
    exists|id: u64| #[trigger] docs.contains_key(id) && docs[id] == v
}

/// The view of an optional session.
pub open spec fn opt_view(o: Option<Session>) -> Option<SessionView> {
    match o {
        Some(s) => Some(s@),
        None => None,
    }
}

/// A session store: a durable store of record behind an expiring cache.
pub struct SessionStore {
    docs: Vec<(u64, Session)>,
    cache: Vec<(u64, CacheEntry)>,
    next_id: u64,
}

impl SessionStore {
    /// The store of record, as a map from identifier to session value.
    pub closed spec fn docs_model(self) -> Map<u64, SessionView> {
        entry_map(doc_entries(self.docs@))
    }

    /// The cache, as a map from identifier to cached snapshot and expiry.
    pub closed spec fn cache_model(self) -> Map<u64, CacheEntryView> {
        entry_map(cache_entries(self.cache@))
    }

    /// The identifier that the next successful `create` will assign.
    pub closed spec fn id_bound(self) -> u64 {
        self.next_id
    }

    /// The documents of the store of record, as a multiset of session
    /// values: listing order and repeated values are both accounted for.
    pub closed spec fn docs_mset(self) -> Multiset<SessionView> {
        doc_sessions(self.docs@).to_multiset()
    }

    /// Well-formedness: unique keys on both sides; every document carries
    /// its own identifier, below the allocation bound; and every cache
    /// entry agrees with the store of record.
    pub closed spec fn wf(self) -> bool {
        &&& keys_unique(doc_entries(self.docs@))
        &&& keys_unique(cache_entries(self.cache@))
        &&& forall|id: u64| #[trigger]
            self.docs_model().contains_key(id) ==> self.docs_model()[id].id == Some(id) && id
                < self.next_id
        &&& forall|id: u64| #[trigger]
            self.cache_model().contains_key(id) ==> self.docs_model().contains_key(id)
                && self.cache_model()[id].session == self.docs_model()[id]
    }

    pub fn new() -> (s: SessionStore)
        ensures
            s.wf(),
            s.docs_model() == Map::<u64, SessionView>::empty(),
            s.cache_model() == Map::<u64, CacheEntryView>::empty(),
            s.id_bound() == 0,
    {
        let s = SessionStore { docs: Vec::new(), cache: Vec::new(), next_id: 0 };
        proof {
            assert(doc_entries(s.docs@) =~= Seq::<(u64, SessionView)>::empty());
            assert(cache_entries(s.cache@) =~= Seq::<(u64, CacheEntryView)>::empty());
        }
        s
    }

    /// Removes the cache entry for `id`, if any.
    fn cache_del(&mut self, id: u64)
        requires
            keys_unique(cache_entries(old(self).cache@)),
        ensures
            final(self).docs == old(self).docs,
            final(self).next_id == old(self).next_id,
            keys_unique(cache_entries(final(self).cache@)),
            final(self).cache_model() == old(self).cache_model().remove(id),
    {
        proof {
            lemma_entry_map_dom(cache_entries(self.cache@));
        }
        match assoc_find(&self.cache, id) {
            Some(i) => {
                let ghost c0 = cache_entries(self.cache@);
                self.cache.remove(i);
                proof {
                    assert(cache_entries(self.cache@) =~= c0.remove(i as int));
                    lemma_entry_map_remove(c0, i as int);
                    assert forall|a: int, b: int|
                        0 <= a < b < c0.remove(i as int).len() implies (#[trigger] c0.remove(
                        i as int,
                    )[a]).0 != (#[trigger] c0.remove(i as int)[b]).0 by {
                        let a0 = if a < i {
                            a
                        } else {
                            a + 1
                        };
                        let b0 = if b < i {
                            b
                        } else {
                            b + 1
                        };
                        assert(c0.remove(i as int)[a] == c0[a0]);
                        assert(c0.remove(i as int)[b] == c0[b0]);
                    };
                }
            },
            None => {
                proof {
                    assert(!self.cache_model().contains_key(id));
                    assert(self.cache_model() =~= self.cache_model().remove(id));
                }
            },
        }
    }

    /// Writes the cache entry for `id`, replacing any previous one.
    fn cache_put(&mut self, id: u64, entry: CacheEntry)
        requires
            keys_unique(cache_entries(old(self).cache@)),
        ensures
            final(self).docs == old(self).docs,
            final(self).next_id == old(self).next_id,
            keys_unique(cache_entries(final(self).cache@)),
            final(self).cache_model() == old(self).cache_model().insert(id, entry@),
    {
        let ghost c0 = cache_entries(self.cache@);
        match assoc_find(&self.cache, id) {
            Some(i) => {
                self.cache.set(i, (id, entry));
                proof {
                    assert(cache_entries(self.cache@) =~= c0.update(i as int, (id, entry@)));
                    assert(c0.update(i as int, (id, entry@)) == c0.update(
                        i as int,
                        (c0[i as int].0, entry@),
                    ));
                    lemma_entry_map_update(c0, i as int, entry@);
                    assert forall|a: int, b: int|
                        0 <= a < b < c0.update(i as int, (id, entry@)).len() implies (
                        #[trigger] c0.update(i as int, (id, entry@))[a]).0 != (#[trigger] c0.update(
                        i as int,
                        (id, entry@),
                    )[b]).0 by {};
                }
            },
            None => {
                self.cache.push((id, entry));
                proof {
                    assert(cache_entries(self.cache@) =~= c0.push((id, entry@)));
                    lemma_entry_map_push(c0, id, entry@);
                    assert forall|a: int, b: int|
                        0 <= a < b < c0.push((id, entry@)).len() implies (#[trigger] c0.push(
                        (id, entry@),
                    )[a]).0 != (#[trigger] c0.push((id, entry@))[b]).0 by {
                        if b == c0.len() {
                            assert(c0.push((id, entry@))[a] == c0[a]);
                        }
                    };
                }
            },
        }
    }

    /// Persists a brand-new session and returns its assigned identifier.
    /// The cache is not written: it is populated lazily on first read.
    pub fn create(&mut self, session: Session) -> (r: Result<u64, StoreError>)
        requires
            old(self).wf(),
        ensures
            final(self).wf(),
            r is Err <==> old(self).id_bound() == u64::MAX,
            (match r {
                Ok(id) => {
                    &&& id == old(self).id_bound()
                    &&& final(self).id_bound() == old(self).id_bound() + 1
                    &&& !old(self).docs_model().contains_key(id)
                    &&& final(self).docs_model() == old(self).docs_model().insert(
                        id,
                        (SessionView { id: Some(id), ..session@ }),
                    )
                    &&& final(self).cache_model() == old(self).cache_model()
                },
                Err(_) => {
                    &&& final(self).id_bound() == old(self).id_bound()
                    &&& final(self).docs_model() == old(self).docs_model()
                    &&& final(self).cache_model() == old(self).cache_model()
                },
            }),
    {
        if self.next_id == u64::MAX {
            return Err(StoreError);
        }
        let id = self.next_id;
        self.next_id = self.next_id + 1;
        let mut s = session;
        s.id = Some(id);
        let ghost d0 = doc_entries(self.docs@);
        proof {
            lemma_entry_map_dom(d0);
            if has_key(d0, id) {
                let i = choose|i: int| 0 <= i < d0.len() && (#[trigger] d0[i]).0 == id;
                lemma_entry_map_get(d0, i);
            }
        }
        self.docs.push((id, s));
        proof {
            assert(doc_entries(self.docs@) =~= d0.push((id, s@)));
            lemma_entry_map_push(d0, id, s@);
            assert forall|a: int, b: int|
                0 <= a < b < d0.push((id, s@)).len() implies (#[trigger] d0.push(
                (id, s@),
            )[a]).0 != (#[trigger] d0.push((id, s@))[b]).0 by {
                if b == d0.len() {
                    assert(d0.push((id, s@))[a] == d0[a]);
                    assert(has_key(d0, d0[a].0));
                    if d0[a].0 == id {
                        let i = choose|i: int| 0 <= i < d0.len() && (#[trigger] d0[i]).0 == id;
                        lemma_entry_map_get(d0, i);
                    }
                }
            };
            assert(s@ =~= (SessionView { id: Some(id), ..session@ }));
        }
        Ok(id)
    }

    /// Cache-aside read. An unexpired cached snapshot is returned at once;
    /// on a cache miss the store of record answers and the snapshot is
    /// written back with the fixed time-to-live. Because every cache entry
    /// agrees with the store of record, the result always equals a direct
    /// read of the store of record: a cache miss alone can never turn into
    /// an absent answer, and a nonexistent identifier yields `None`, never
    /// an error. The clock reading must leave room for the expiry
    /// computation, which is all the precondition asks of it.
    pub fn find_by_id(&mut self, id: u64, now_ms: i64) -> (r: Option<Session>)
        requires
            old(self).wf(),
            now_ms <= i64::MAX - CACHE_TTL_MS,
        ensures
            final(self).wf(),
            opt_view(r) == find_spec(
                old(self).docs_model(),
                old(self).cache_model(),
                id,
                now_ms,
            ),
            opt_view(r) == (if old(self).docs_model().contains_key(id) {
                Some(old(self).docs_model()[id])
            } else {
                None
            }),
            r is None ==> !old(self).docs_model().contains_key(id),
            final(self).docs_model() == old(self).docs_model(),
            final(self).id_bound() == old(self).id_bound(),
            final(self).cache_model() == (if cache_lookup(old(self).cache_model(), id, now_ms)
                is None && old(self).docs_model().contains_key(id) {
                old(self).cache_model().insert(
                    id,
                    (CacheEntryView {
                        session: old(self).docs_model()[id],
                        expires_at_ms: (now_ms + CACHE_TTL_MS) as i64,
                    }),
                )
            } else {
                old(self).cache_model()
            }),
    {
        proof {
            lemma_entry_map_dom(cache_entries(self.cache@));
            lemma_entry_map_dom(doc_entries(self.docs@));
        }
        match assoc_find(&self.cache, id) {
            Some(ci) => {
                proof {
                    lemma_entry_map_get(cache_entries(self.cache@), ci as int);
                }
                let fresh = now_ms < self.cache[ci].1.expires_at_ms;
                if fresh {
                    let s = self.cache[ci].1.session.clone();
                    return Some(s);
                }
            },
            None => {},
        }
        match assoc_find(&self.docs, id) {
            Some(di) => {
                proof {
                    lemma_entry_map_get(doc_entries(self.docs@), di as int);
                }
                let s = self.docs[di].1.clone();
                let snapshot = self.docs[di].1.clone();
                let entry = CacheEntry { session: snapshot, expires_at_ms: now_ms + CACHE_TTL_MS };
                self.cache_put(id, entry);
                Some(s)
            },
            None => {
                None
            },
        }
    }

    /// The number of sessions in the store of record.
    pub fn count(&self) -> (r: u64)
        requires
            self.wf(),
        ensures
            r == self.docs_model().len(),
    {
        proof {
            lemma_entry_map_len(doc_entries(self.docs@));
        }
        self.docs.len() as u64
    }

    /// Lists sessions directly from the store of record, newest first by
    /// update timestamp, capped at `limit`. The cache is never consulted.
    /// The result is a prefix of some sorted arrangement of the full
    /// document multiset, so it holds exactly the most recently updated
    /// documents, and each listed session is a document of the store of
    /// record.
    pub fn find_all(&self, limit: usize) -> (r: Vec<Session>)
        requires
            self.wf(),
        ensures
            r@.len() == (if (limit as int) <= self.docs_model().len() {
                limit as int
            } else {
                self.docs_model().len() as int
            }),
            sorted_desc(sviews(r@)),
            (exists|full: Seq<SessionView>|
                {
                    &&& full.to_multiset() == self.docs_mset()
                    &&& sorted_desc(full)
                    &&& sviews(r@) == full.take(r@.len() as int)
                }),
            forall|i: int|
                #![trigger sviews(r@)[i]]
                0 <= i < r@.len() ==> listed_in(self.docs_model(), sviews(r@)[i]),
    {
        proof {
            lemma_entry_map_len(doc_entries(self.docs@));
        }
        let ghost orig = doc_sessions(self.docs@);
        let mut rest: Vec<Session> = Vec::new();
        let mut i: usize = 0;
        while i < self.docs.len()
            invariant
                i <= self.docs@.len(),
                rest@.len() == i,
                forall|j: int| 0 <= j < i ==> (#[trigger] rest@[j])@ == self.docs@[j].1@,
            decreases self.docs@.len() - i,
        {
            rest.push(self.docs[i].1.clone());
            i = i + 1;
        }
        proof {
            assert(sviews(rest@) =~= orig);
        }
        let mut out: Vec<Session> = Vec::new();
        while rest.len() > 0
            invariant
                sviews(out@).to_multiset().add(sviews(rest@).to_multiset()) == orig.to_multiset(),
                sorted_desc(sviews(out@)),
                forall|a: int, b: int|
                    0 <= a < out@.len() && 0 <= b < rest@.len() ==> (#[trigger] sviews(
                        out@,
                    )[a]).updated_at_ms >= (#[trigger] sviews(rest@)[b]).updated_at_ms,
            decreases rest@.len(),
        {
            let mut m: usize = 0;
            let mut j: usize = 1;
            while j < rest.len()
                invariant
                    m < j <= rest@.len(),
                    rest@.len() > 0,
                    forall|t: int|
                        0 <= t < j ==> rest@[m as int].updated_at_ms >= (#[trigger] rest@[t]).updated_at_ms,
                decreases rest@.len() - j,
            {
                if rest[j].updated_at_ms > rest[m].updated_at_ms {
                    m = j;
                }
                j = j + 1;
            }
            let ghost rest0 = sviews(rest@);
            let ghost out0 = sviews(out@);
            let el = rest.remove(m);
            out.push(el);
            proof {
                assert(sviews(rest@) =~= rest0.remove(m as int));
                assert(sviews(out@) =~= out0.push(el@));
                assert(el@ == rest0[m as int]);
                assert(sviews(out@).to_multiset() =~= out0.to_multiset().insert(el@));
                assert(sviews(rest@).to_multiset() =~= rest0.to_multiset().remove(el@));
                assert(sviews(out@).to_multiset().add(sviews(rest@).to_multiset())
                    =~= orig.to_multiset());
                assert forall|a: int, b: int|
                    0 <= a < out@.len() && 0 <= b < rest@.len() implies (#[trigger] sviews(
                    out@,
                )[a]).updated_at_ms >= (#[trigger] sviews(rest@)[b]).updated_at_ms by {
                    let b0 = if b < m {
                        b
                    } else {
                        b + 1
                    };
                    assert(sviews(rest@)[b] == rest0[b0]);
                    if a < out@.len() - 1 {
                        assert(sviews(out@)[a] == out0[a]);
                    } else {
                        assert(sviews(out@)[a] == el@);
                    }
                };
                assert(sorted_desc(sviews(out@)));
            }
        }
        proof {
            assert(sviews(rest@).to_multiset() =~= Multiset::<SessionView>::empty());
            assert(sviews(out@).to_multiset() =~= orig.to_multiset());
            assert(orig.to_multiset().len() == orig.len());
            assert(sviews(out@).to_multiset().len() == sviews(out@).len());
        }
        let ghost full = sviews(out@);
        let mut out = out;
        if out.len() > limit {
            out.truncate(limit);
        }
        proof {
            assert(sviews(out@) =~= full.take(out@.len() as int));
            assert forall|k: int| #![trigger sviews(out@)[k]] 0 <= k < out@.len() implies listed_in(
                self.docs_model(),
                sviews(out@)[k],
            ) by {
                let v = sviews(out@)[k];
                assert(full[k] == v);
                assert(full.contains(v));
                assert(full.to_multiset().contains(v));
                assert(orig.to_multiset().contains(v));
                assert(orig.contains(v));
                let oi = choose|oi: int| 0 <= oi < orig.len() && orig[oi] == v;
                let d = doc_entries(self.docs@);
                assert(d[oi].0 == self.docs@[oi].0 && d[oi].1 == self.docs@[oi].1@);
                lemma_entry_map_get(d, oi);
                assert(self.docs_model().contains_key(d[oi].0) && self.docs_model()[d[oi].0] == v);
            };
        }
        out
    }

    /// Atomically appends `message` and refreshes the update timestamp in
    /// the store of record, then unconditionally invalidates the cache
    /// entry for `id`: afterwards no clock reading can observe a cached
    /// snapshot for `id`, so the next read is forced to the store of
    /// record. Returns whether a matching session existed.
    pub fn add_message(&mut self, id: u64, message: Message, now_ms: i64) -> (r: bool)
        requires
            old(self).wf(),
        ensures
            final(self).wf(),
            r == old(self).docs_model().contains_key(id),
            final(self).id_bound() == old(self).id_bound(),
            final(self).cache_model() == old(self).cache_model().remove(id),
            forall|t: i64| cache_lookup(final(self).cache_model(), id, t) is None,
            r ==> final(self).docs_model() == old(self).docs_model().insert(
                id,
                session_with_message(old(self).docs_model()[id], message, now_ms),
            ),
            !r ==> final(self).docs_model() == old(self).docs_model(),
    {
        proof {
            lemma_entry_map_dom(doc_entries(self.docs@));
        }
        let r = match assoc_find(&self.docs, id) {
            Some(di) => {
                proof {
                    lemma_entry_map_get(doc_entries(self.docs@), di as int);
                }
                let mut s = self.docs[di].1.clone();
                s.add_message(message, now_ms);
                let ghost d0 = doc_entries(self.docs@);
                self.docs.set(di, (id, s));
                proof {
                    assert(doc_entries(self.docs@) =~= d0.update(di as int, (id, s@)));
                    assert(d0.update(di as int, (id, s@)) == d0.update(
                        di as int,
                        (d0[di as int].0, s@),
                    ));
                    lemma_entry_map_update(d0, di as int, s@);
                    assert(s@ =~= session_with_message(entry_map(d0)[id], message, now_ms));
                    assert forall|a: int, b: int|
                        0 <= a < b < d0.update(di as int, (id, s@)).len() implies (
                        #[trigger] d0.update(di as int, (id, s@))[a]).0 != (#[trigger] d0.update(
                        di as int,
                        (id, s@),
                    )[b]).0 by {};
                }
                true
            },
            None => {
                false
            },
        };
        self.cache_del(id);
        proof {
            lemma_entry_map_dom(cache_entries(self.cache@));
        }
        r
    }

    /// Removes the session from the store of record and, on either outcome,
    /// deletes the cache entry. Returns whether a document was removed.
    pub fn delete(&mut self, id: u64) -> (r: bool)
        requires
            old(self).wf(),
        ensures
            final(self).wf(),
            r == old(self).docs_model().contains_key(id),
            final(self).id_bound() == old(self).id_bound(),
            final(self).docs_model() == old(self).docs_model().remove(id),
            final(self).cache_model() == old(self).cache_model().remove(id),
    {
        proof {
            lemma_entry_map_dom(doc_entries(self.docs@));
        }
        let r = match assoc_find(&self.docs, id) {
            Some(di) => {
                proof {
                    lemma_entry_map_get(doc_entries(self.docs@), di as int);
                }
                let ghost d0 = doc_entries(self.docs@);
                self.docs.remove(di);
                proof {
                    assert(doc_entries(self.docs@) =~= d0.remove(di as int));
                    lemma_entry_map_remove(d0, di as int);
                    assert forall|a: int, b: int|
                        0 <= a < b < d0.remove(di as int).len() implies (#[trigger] d0.remove(
                        di as int,
                    )[a]).0 != (#[trigger] d0.remove(di as int)[b]).0 by {
                        let a0 = if a < di {
                            a
                        } else {
                            a + 1
                        };
                        let b0 = if b < di {
                            b
                        } else {
                            b + 1
                        };
                        assert(d0.remove(di as int)[a] == d0[a0]);
                        assert(d0.remove(di as int)[b] == d0[b0]);
                    };
                }
                true
            },
            None => {
                proof {
                    assert(!self.docs_model().contains_key(id));
                    assert(self.docs_model() =~= self.docs_model().remove(id));
                }
                false
            },
        };
        self.cache_del(id);
        proof {
            lemma_entry_map_dom(cache_entries(self.cache@));
        }
        r
    }

    /// Replaces the title and refreshes the update timestamp in the store
    /// of record, with the same unconditional invalidation as a message
    /// append. Returns whether a matching session existed.
    pub fn update_title(&mut self, id: u64, title: String, now_ms: i64) -> (r: bool)
        requires
            old(self).wf(),
        ensures
            final(self).wf(),
            r == old(self).docs_model().contains_key(id),
            final(self).id_bound() == old(self).id_bound(),
            final(self).cache_model() == old(self).cache_model().remove(id),
            forall|t: i64| cache_lookup(final(self).cache_model(), id, t) is None,
            r ==> final(self).docs_model() == old(self).docs_model().insert(
                id,
                session_with_title(old(self).docs_model()[id], title, now_ms),
            ),
            !r ==> final(self).docs_model() == old(self).docs_model(),
    {
        proof {
            lemma_entry_map_dom(doc_entries(self.docs@));
        }
        let r = match assoc_find(&self.docs, id) {
            Some(di) => {
                proof {
                    lemma_entry_map_get(doc_entries(self.docs@), di as int);
                }
                let mut s = self.docs[di].1.clone();
                s.title = Some(title);
                if now_ms > s.updated_at_ms {
                    s.updated_at_ms = now_ms;
                }
                let ghost d0 = doc_entries(self.docs@);
                self.docs.set(di, (id, s));
                proof {
                    assert(doc_entries(self.docs@) =~= d0.update(di as int, (id, s@)));
                    assert(d0.update(di as int, (id, s@)) == d0.update(
                        di as int,
                        (d0[di as int].0, s@),
                    ));
                    lemma_entry_map_update(d0, di as int, s@);
                    assert(s@ =~= session_with_title(entry_map(d0)[id], title, now_ms));
                    assert forall|a: int, b: int|
                        0 <= a < b < d0.update(di as int, (id, s@)).len() implies (
                        #[trigger] d0.update(di as int, (id, s@))[a]).0 != (#[trigger] d0.update(
                        di as int,
                        (id, s@),
                    )[b]).0 by {};
                }
                true
            },
            None => {
                false
            },
        };
        self.cache_del(id);
        proof {
            lemma_entry_map_dom(cache_entries(self.cache@));
        }
        r
    }
}

/// Read-after-append. Once `add_message` has succeeded for `id` — its
/// contract says the store of record then holds
/// `session_with_message(docs[id], m, now)` and the cache holds nothing for
/// `id` — a cache-aside read of `id` at any later clock reading observes a
/// session with exactly one more message, the appended one last and the
/// earlier transcript unchanged, whatever the cache held before the append.
pub proof fn lemma_read_after_append(
    docs: Map<u64, SessionView>,
    cache: Map<u64, CacheEntryView>,
    id: u64,
    m: Message,
    now: i64,
    read_now: i64,
)
    requires
        docs.contains_key(id),
    ensures
        ({
            let docs1 = docs.insert(id, session_with_message(docs[id], m, now));
            let cache1 = cache.remove(id);
            &&& find_spec(docs1, cache1, id, read_now) matches Some(s1)
                && s1.messages.len() == docs[id].messages.len() + 1
                && s1.messages.last() == m
                && s1.messages.drop_last() == docs[id].messages
        }),
{
    let docs1 = docs.insert(id, session_with_message(docs[id], m, now));
    let cache1 = cache.remove(id);
    assert(!cache1.contains_key(id));
    assert(cache_lookup(cache1, id, read_now) is None);
    assert(docs1[id] == session_with_message(docs[id], m, now));
    assert(docs[id].messages.push(m).drop_last() =~= docs[id].messages);
}

} // verus!
