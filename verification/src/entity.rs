//! The entity mapping service: entity names resolve to stable integer
//! identifiers for a given entity type, through a caller-owned bounded
//! cache and a race-safe create-on-miss upsert.
//!
//! Identifiers, once assigned, are permanent: the backing table maps each
//! name to one id forever. The cache may therefore serve a stale entry
//! without ever serving a wrong one, and resolution is deterministic —
//! the same name always comes back with the same id, whether it was
//! cached, fetched, or just created.

use vstd::prelude::*;

verus! {

use crate::error::EntityMappingError;
use crate::text::{sql_ident, sql_literal, str_eq, spec_sql_literal_plain};
use crate::pg;

/// A caller-owned entity mapping with a bounded in-process cache keyed by
/// (entity type, name).
///
/// Resolution takes the mapping exclusively, so batches sharing one
/// mapping serialize on it; flows that must run side by side each own a
/// mapping of their own, which is safe because identifiers are permanent
/// — two caches can only ever hold the same id for a name.
#[verifier::external_body]
pub struct CachingEntityMapping {
    cache: quick_cache::sync::Cache<(String, String), i32>,
}

/// What the cache holds: a map from (entity type, name) to the cached
/// identifier.
pub uninterp spec fn spec_cache_entries(m: CachingEntityMapping) -> Map<
    (Seq<char>, Seq<char>),
    i32,
>;

/// The empty cache contents.
pub open spec fn spec_no_cache_entries() -> Map<(Seq<char>, Seq<char>), i32> {
    Map::empty()
}

impl CachingEntityMapping {
    /// Relies on `quick_cache::sync::Cache::new`: a fresh cache holds
    /// nothing.
    #[verifier::external_body]
    pub fn new(size: usize) -> (r: CachingEntityMapping)
        requires
            size >= 1,
        ensures
            spec_cache_entries(r) == spec_no_cache_entries(),
    {
        CachingEntityMapping { cache: quick_cache::sync::Cache::new(size) }
    }

    /// Relies on `quick_cache::sync::Cache::get`: the cached value when
    /// the pair is held, nothing otherwise; a lookup never changes what
    /// is held.
    #[verifier::external_body]
    pub fn cached_id(&mut self, entity_type: &str, name: &str) -> (r: Option<i32>)
        ensures
            spec_cache_entries(*final(self)) == spec_cache_entries(*old(self)),
            r == if spec_cache_entries(*old(self)).contains_key((entity_type@, name@)) {
                Some(spec_cache_entries(*old(self))[(entity_type@, name@)])
            } else {
                None::<i32>
            },
    {
        self.cache.get(&(entity_type.to_owned(), name.to_owned()))
    }

    /// Relies on `quick_cache::sync::Cache::insert`: the pair may be
    /// admitted or passed over, and admission may evict others; whatever
    /// happened, every entry held afterwards either is the inserted pair
    /// or was already held with the same value.
    #[verifier::external_body]
    pub fn cache_id(&mut self, entity_type: String, name: String, id: i32)
        ensures
            forall|k: (Seq<char>, Seq<char>)|
                #[trigger] spec_cache_entries(*final(self)).contains_key(k) ==> ((k == (
                entity_type@,
                name@,
                ) && spec_cache_entries(*final(self))[k] == id) || (spec_cache_entries(
                    *old(self),
                ).contains_key(k) && spec_cache_entries(*final(self))[k] == spec_cache_entries(
                    *old(self),
                )[k])),
    {
        self.cache.insert((entity_type, name), id);
    }
}

/// The first fetched (name, id) pair carrying `name`.
pub open spec fn spec_lookup_pair(fetched: Seq<(Seq<char>, i32)>, name: Seq<char>) -> Option<i32>
    decreases fetched.len(),
{
    if fetched.len() == 0 {
        None
    } else if fetched.first().0 == name {
        Some(fetched.first().1)
    } else {
        spec_lookup_pair(fetched.drop_first(), name)
    }
}

/// The identifiers the names resolve to: per name, the cache hit when
/// there was one, else the fetched pair; `None` when any name stays
/// unresolved.
pub open spec fn spec_resolve(
    names: Seq<Seq<char>>,
    hits: Seq<Option<i32>>,
    fetched: Seq<(Seq<char>, i32)>,
) -> Option<Seq<i32>>
    decreases names.len(),
{
    if names.len() == 0 {
        Some(Seq::empty())
    } else {
        match spec_resolve(names.drop_last(), hits.drop_last(), fetched) {
            Option::None => None,
            Option::Some(pre) => match hits.last() {
                Option::Some(id) => Some(pre.push(id)),
                Option::None => match spec_lookup_pair(fetched, names.last()) {
                    Option::Some(id) => Some(pre.push(id)),
                    Option::None => None,
                },
            },
        }
    }
}

/// Looks one name up among the fetched pairs.
fn lookup_pair(fetched: &Vec<(String, i32)>, name: &str) -> (r: Option<i32>)
    ensures
        r == spec_lookup_pair(fetched.deep_view(), name@),
{
    let ghost dv = fetched.deep_view();
    let mut i: usize = 0;
    proof {
        assert(dv.skip(0) =~= dv);
    }
    while i < fetched.len()
        invariant
            0 <= i <= fetched.len(),
            dv == fetched.deep_view(),
            dv.len() == fetched.len(),
            spec_lookup_pair(dv, name@) == spec_lookup_pair(dv.skip(i as int), name@),
        decreases fetched.len() - i,
    {
        let ghost rest = dv.skip(i as int);
        if str_eq(fetched[i].0.as_str(), name) {
            proof {
                assert(rest.first() == dv[i as int]);
            }
            return Some(fetched[i].1);
        }
        proof {
            assert(rest.first() == dv[i as int]);
            assert(rest.drop_first() =~= dv.skip(i + 1));
        }
        i = i + 1;
    }
    proof {
        assert(dv.skip(fetched.len() as int) =~= Seq::<(Seq<char>, i32)>::empty());
    }
    None
}

/// Combines cache hits and fetched pairs into the ordered identifier
/// list: one id per input name, duplicates resolving alike; the whole
/// call fails exactly when some name stayed unresolved.
pub fn resolve_ids(
    names: &Vec<String>,
    hits: &Vec<Option<i32>>,
    fetched: &Vec<(String, i32)>,
) -> (r: Result<Vec<i32>, EntityMappingError>)
    requires
        hits@.len() == names@.len(),
    ensures
        match spec_resolve(names.deep_view(), hits.deep_view(), fetched.deep_view()) {
            Option::Some(ids) => r matches Ok(v) && v@ == ids,
            Option::None => r matches Err(e) && e is UnmappedEntityError,
        },
        r matches Ok(v) ==> v@.len() == names@.len(),
{
    let ghost ndv = names.deep_view();
    let ghost hdv = hits.deep_view();
    let ghost fdv = fetched.deep_view();
    let mut out: Vec<i32> = Vec::new();
    let mut i: usize = 0;
    proof {
        assert(ndv.take(0) =~= Seq::<Seq<char>>::empty());
        assert(hdv.take(0) =~= Seq::<Option<i32>>::empty());
        assert(spec_resolve(ndv.take(0), hdv.take(0), fdv) == Some(Seq::<i32>::empty()));
        assert(out@ =~= Seq::<i32>::empty());
    }
    while i < names.len()
        invariant
            0 <= i <= names.len(),
            ndv == names.deep_view(),
            hdv == hits.deep_view(),
            fdv == fetched.deep_view(),
            ndv.len() == names.len(),
            hdv.len() == names.len(),
            out@.len() == i,
            spec_resolve(ndv.take(i as int), hdv.take(i as int), fdv) == Some(out@),
        decreases names.len() - i,
    {
        let ghost out0 = out@;
        proof {
            assert(ndv.take(i + 1).drop_last() =~= ndv.take(i as int));
            assert(hdv.take(i + 1).drop_last() =~= hdv.take(i as int));
            assert(ndv.take(i + 1).last() == ndv[i as int]);
            assert(hdv.take(i + 1).last() == hdv[i as int]);
        }
        match hits[i] {
            Option::Some(id) => {
                out.push(id);
                proof {
                    assert(out@ =~= out0.push(id));
                }
            },
            Option::None => {
                match lookup_pair(fetched, names[i].as_str()) {
                    Option::Some(id) => {
                        out.push(id);
                        proof {
                            assert(out@ =~= out0.push(id));
                        }
                    },
                    Option::None => {
                        proof {
                            lemma_resolve_none(ndv, hdv, fdv, i as int);
                        }
                        return Err(EntityMappingError::UnmappedEntityError);
                    },
                }
            },
        }
        i = i + 1;
    }
    proof {
        assert(ndv.take(names.len() as int) =~= ndv);
        assert(hdv.take(names.len() as int) =~= hdv);
    }
    Ok(out)
}

/// Once a name stays unresolved, the whole resolution is `None`.
proof fn lemma_resolve_none(
    names: Seq<Seq<char>>,
    hits: Seq<Option<i32>>,
    fetched: Seq<(Seq<char>, i32)>,
    i: int,
)
    requires
        names.len() == hits.len(),
        0 <= i < names.len(),
        hits[i] is None,
        spec_lookup_pair(fetched, names[i]) is None,
    ensures
        spec_resolve(names, hits, fetched) is None,
    decreases names.len(),
{
    if names.len() > 0 {
        if i == names.len() - 1 {
        } else {
            assert(names.drop_last()[i] == names[i]);
            assert(hits.drop_last()[i] == hits[i]);
            lemma_resolve_none(names.drop_last(), hits.drop_last(), fetched, i);
        }
    }
}

/// A looked-up pair really is one of the fetched pairs.
proof fn lemma_lookup_pair_member(fetched: Seq<(Seq<char>, i32)>, name: Seq<char>)
    requires
        spec_lookup_pair(fetched, name) is Some,
    ensures
        exists|j: int|
            0 <= j < fetched.len() && (#[trigger] fetched[j]).0 == name && fetched[j].1
                == spec_lookup_pair(fetched, name)->0,
    decreases fetched.len(),
{
    if fetched.len() > 0 {
        if fetched.first().0 == name {
            assert(fetched[0].0 == name && fetched[0].1 == spec_lookup_pair(fetched, name)->0);
        } else {
            lemma_lookup_pair_member(fetched.drop_first(), name);
            let j = choose|j: int|
                0 <= j < fetched.drop_first().len() && (#[trigger] fetched.drop_first()[j]).0
                    == name && fetched.drop_first()[j].1 == spec_lookup_pair(
                    fetched.drop_first(),
                    name,
                )->0;
            assert(fetched[j + 1].0 == name && fetched[j + 1].1 == spec_lookup_pair(
                fetched,
                name,
            )->0);
        }
    }
}

/// Entity mapping determinism: identifiers are assigned once and never
/// re-numbered, so whenever the cache hits and the fetched pairs both
/// agree with the backing store, every resolved identifier is the store's
/// identifier for its name — the same answer whether it came from the
/// cache, from the lookup, or after an eviction forced a re-fetch.
pub proof fn lemma_resolution_agrees_with_store(
    names: Seq<Seq<char>>,
    hits: Seq<Option<i32>>,
    fetched: Seq<(Seq<char>, i32)>,
    store: Map<Seq<char>, i32>,
)
    requires
        names.len() == hits.len(),
        forall|i: int|
            0 <= i < hits.len() ==> (#[trigger] hits[i] matches Some(id) ==> store.contains_key(
                names[i],
            ) && store[names[i]] == id),
        forall|j: int|
            0 <= j < fetched.len() ==> store.contains_key((#[trigger] fetched[j]).0)
                && store[fetched[j].0] == fetched[j].1,
    ensures
        spec_resolve(names, hits, fetched) matches Some(ids) ==> ids.len() == names.len()
            && forall|i: int|
            0 <= i < names.len() ==> store.contains_key(#[trigger] names[i]) && ids[i]
                == store[names[i]],
    decreases names.len(),
{
    if names.len() > 0 && spec_resolve(names, hits, fetched) is Some {
        assert(forall|i: int|
            0 <= i < names.drop_last().len() ==> names.drop_last()[i] == names[i]
                && hits.drop_last()[i] == hits[i]);
        lemma_resolution_agrees_with_store(names.drop_last(), hits.drop_last(), fetched, store);
        let last = names.last();
        if hits.last() is None {
            lemma_lookup_pair_member(fetched, last);
        }
    }
}

/// Concurrent creation safety: two callers resolving the same names never
/// see two different identifiers for one name. The backing store's
/// conflict resolution hands both creators the single stored id, so both
/// resolutions agree with the same store — and therefore with each other,
/// whatever each cache held.
pub proof fn lemma_concurrent_resolution_converges(
    names: Seq<Seq<char>>,
    hits1: Seq<Option<i32>>,
    fetched1: Seq<(Seq<char>, i32)>,
    hits2: Seq<Option<i32>>,
    fetched2: Seq<(Seq<char>, i32)>,
    store: Map<Seq<char>, i32>,
)
    requires
        names.len() == hits1.len(),
        names.len() == hits2.len(),
        forall|i: int|
            0 <= i < hits1.len() ==> (#[trigger] hits1[i] matches Some(id) ==> store.contains_key(
                names[i],
            ) && store[names[i]] == id),
        forall|j: int|
            0 <= j < fetched1.len() ==> store.contains_key((#[trigger] fetched1[j]).0)
                && store[fetched1[j].0] == fetched1[j].1,
        forall|i: int|
            0 <= i < hits2.len() ==> (#[trigger] hits2[i] matches Some(id) ==> store.contains_key(
                names[i],
            ) && store[names[i]] == id),
        forall|j: int|
            0 <= j < fetched2.len() ==> store.contains_key((#[trigger] fetched2[j]).0)
                && store[fetched2[j].0] == fetched2[j].1,
        spec_resolve(names, hits1, fetched1) is Some,
        spec_resolve(names, hits2, fetched2) is Some,
    ensures
        spec_resolve(names, hits1, fetched1) == spec_resolve(names, hits2, fetched2),
{
    lemma_resolution_agrees_with_store(names, hits1, fetched1, store);
    lemma_resolution_agrees_with_store(names, hits2, fetched2, store);
    let ids1 = spec_resolve(names, hits1, fetched1)->0;
    let ids2 = spec_resolve(names, hits2, fetched2)->0;
    assert forall|i: int| 0 <= i < ids1.len() implies ids1[i] == ids2[i] by {
        assert(store.contains_key(names[i]));
        assert(ids1[i] == store[names[i]]);
        assert(ids2[i] == store[names[i]]);
    }
    assert(ids1 =~= ids2);
}

/// The quoted miss names joined with commas.
pub open spec fn spec_name_literals(names: Seq<Seq<char>>) -> Seq<char>
    decreases names.len(),
{
    if names.len() == 0 {
        Seq::empty()
    } else if names.len() == 1 {
        spec_sql_literal_plain(names[0])
    } else {
        spec_name_literals(names.drop_last()) + ","@ + spec_sql_literal_plain(names.last())
    }
}

fn name_literals(names: &Vec<String>) -> (r: String)
    ensures
        r@ == spec_name_literals(names.deep_view()),
{
    let ghost dv = names.deep_view();
    let mut r = String::new();
    let mut i: usize = 0;
    proof {
        assert(dv.take(0) =~= Seq::<Seq<char>>::empty());
    }
    while i < names.len()
        invariant
            0 <= i <= names.len(),
            dv == names.deep_view(),
            dv.len() == names.len(),
            r@ == spec_name_literals(dv.take(i as int)),
        decreases names.len() - i,
    {
        if i > 0 {
            r.append(",");
        }
        let lit = sql_literal(names[i].as_str());
        r.append(lit.as_str());
        proof {
            assert(dv.take(i + 1).drop_last() =~= dv.take(i as int));
            assert(dv.take(i + 1).last() == dv[i as int]);
        }
        i = i + 1;
    }
    proof {
        assert(dv.take(names.len() as int) =~= dv);
    }
    r
}

/// Creates one entity through the race-safe conflict-resolving upsert —
/// on conflict the existing row wins — and reads the stored id back.
/// A failing query is a database error; an upsert that returns no row is
/// an insert error; an unreadable id cell is a creation error.
fn create_entity(
    client: &mut postgres::Client,
    entity_type: &str,
    name: &str,
) -> (r: Result<i32, EntityMappingError>)
    ensures
        r matches Err(e) ==> (e is DatabaseError || e is EntityInsertError
            || e is EntityCreationError),
{
    let mut q = "INSERT INTO entity.".to_owned();
    let id = sql_ident(entity_type);
    q.append(id.as_str());
    q.append("(name) VALUES(");
    let lit = sql_literal(name);
    q.append(lit.as_str());
    q.append(") ON CONFLICT(name) DO UPDATE SET name=EXCLUDED.name RETURNING id");
    let rows = match pg::query(client, q.as_str()) {
        Ok(rows) => rows,
        Err(e) => {
            return Err(EntityMappingError::DatabaseError(e.msg));
        },
    };
    if rows.len() == 0 {
        return Err(EntityMappingError::EntityInsertError);
    }
    match pg::row_i32(&rows[0], 0) {
        Ok(id) => Ok(id),
        Err(e) => Err(EntityMappingError::EntityCreationError(e.msg)),
    }
}

impl CachingEntityMapping {
    /// Resolves entity names to identifiers, order-preserving and one id
    /// per input name: cache hits are served locally; misses go through
    /// one batched lookup; unknown names are created through the
    /// race-safe upsert; every resolved pair feeds the cache. A failing
    /// lookup is a database error and a failing creation keeps
    /// `create_entity`'s kinds; `UnmappedEntityError` is raised by
    /// `resolve_ids`, whose contract fixes it exactly: it comes iff a
    /// name stays unresolved even after creation. An empty request
    /// resolves to the empty identifier list without touching anything.
    pub fn names_to_entity_ids(
        &mut self,
        client: &mut postgres::Client,
        entity_type: &String,
        names: Vec<String>,
    ) -> (r: Result<Vec<i32>, EntityMappingError>)
        ensures
            r matches Ok(ids) ==> ids@.len() == names@.len(),
            names@.len() == 0 ==> (r matches Ok(ids) && ids@.len() == 0),
    {
        let mut hits: Vec<Option<i32>> = Vec::new();
        let mut misses: Vec<String> = Vec::new();
        let mut i: usize = 0;
        while i < names.len()
            invariant
                0 <= i <= names.len(),
                hits@.len() == i,
                misses@.len() <= i,
            decreases names.len() - i,
        {
            let hit = self.cached_id(entity_type.as_str(), names[i].as_str());
            hits.push(hit);
            if hit.is_none() {
                misses.push(names[i].clone());
            }
            i = i + 1;
        }
        let mut fetched: Vec<(String, i32)> = Vec::new();
        if misses.len() > 0 {
            let mut q = "WITH lookup_list AS (SELECT unnest(ARRAY[".to_owned();
            let lits = name_literals(&misses);
            q.append(lits.as_str());
            q.append("]::text[]) AS name) SELECT l.name, e.id FROM lookup_list l LEFT JOIN entity.");
            let id = sql_ident(entity_type.as_str());
            q.append(id.as_str());
            q.append(" e ON l.name = e.name");
            let rows = match pg::query(client, q.as_str()) {
                Ok(rows) => rows,
                Err(e) => {
                    return Err(EntityMappingError::DatabaseError(e.msg));
                },
            };
            let mut j: usize = 0;
            while j < rows.len()
                invariant
                    names@.len() > 0,
                decreases rows.len() - j,
            {
                let name = match pg::row_string(&rows[j], 0) {
                    Ok(n) => n,
                    Err(e) => {
                        return Err(EntityMappingError::DatabaseError(e.msg));
                    },
                };
                let id_value = match pg::row_opt_i32(&rows[j], 1) {
                    Ok(v) => v,
                    Err(e) => {
                        return Err(EntityMappingError::DatabaseError(e.msg));
                    },
                };
                let id = match id_value {
                    Option::Some(id) => id,
                    Option::None => {
                        match create_entity(client, entity_type.as_str(), name.as_str()) {
                            Ok(id) => id,
                            Err(e) => {
                                return Err(e);
                            },
                        }
                    },
                };
                self.cache_id(entity_type.clone(), name.clone(), id);
                fetched.push((name, id));
                j = j + 1;
            }
        }
        resolve_ids(&names, &hits, &fetched)
    }
}

} // verus!
