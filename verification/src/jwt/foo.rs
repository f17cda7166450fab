//! The token-protected sample resource `/test/foo`: an in-memory store of `Foo`
//! records with create, read, update, patch and delete.
use vstd::prelude::*;
use crate::text::{concat3, owned};
use crate::store::KeyedStore;
use crate::jwt::models::ErrorResponse;

verus! {

/// A sample record.
pub struct Foo {
    pub id: String,
    pub name: String,
    pub source: String,
    /// Seconds since the Unix epoch of the last write.
    pub timestamp: u64,
}

/// The records, keyed by id.
pub type FooStore = KeyedStore<Foo>;

/// Reply to a deletion.
pub struct DeleteResponse {
    pub message: String,
    pub id: String,
}

/// The 404 message for a missing record.
pub open spec fn foo_not_found(id: Seq<char>) -> Seq<char> {
    "Foo with id "@ + id + " not found"@
}

fn not_found(id: &str) -> (r: ErrorResponse)
    ensures
        r.message@ == foo_not_found(id@),
{
    ErrorResponse { message: concat3("Foo with id ", id, " not found") }
}

/// A copy of a record.
pub fn copy_foo(f: &Foo) -> (r: Foo)
    ensures
        r == *f,
{
    Foo { id: f.id.clone(), name: f.name.clone(), source: f.source.clone(), timestamp: f.timestamp }
}

/// All records, in the order their ids were first stored.
pub fn get_all_foos(store: &FooStore) -> (r: Vec<Foo>)
    requires
        store.wf(),
    ensures
        r@.len() == store.keys().len(),
        forall|i: int| 0 <= i < r@.len() ==> #[trigger] r@[i] == store@[store.keys()[i]],
{
    proof {
        store.lemma_keys();
    }
    let n = store.key_count();
    let mut out: Vec<Foo> = Vec::new();
    let mut i: usize = 0;
    while i < n
        invariant
            store.wf(),
            n == store.keys().len(),
            i <= n,
            out@.len() == i,
            forall|j: int| 0 <= j < store.keys().len() ==> store@.contains_key(#[trigger] store.keys()[j]),
            forall|j: int| 0 <= j < i ==> #[trigger] out@[j] == store@[store.keys()[j]],
        decreases n - i,
    {
        let key = store.key_at(i);
        assert(store@.contains_key(store.keys()[i as int]));
        let f = store.get(key.as_str()).unwrap();
        out.push(copy_foo(f));
        i += 1;
    }
    out
}

/// The record with `id` (HTTP 200), or 404.
pub fn get_foo(store: &FooStore, id: &str) -> (r: Result<Foo, ErrorResponse>)
    ensures
        store@.contains_key(id@) ==> r == Ok::<Foo, ErrorResponse>(store@[id@]),
        !store@.contains_key(id@) ==> (r matches Err(e) && e.message@ == foo_not_found(id@)),
{
    match store.get(id) {
        Some(f) => Ok(copy_foo(f)),
        None => Err(not_found(id)),
    }
}

/// Stores a new record under `id` (HTTP 201) and returns it.
pub fn create_foo(store: &mut FooStore, id: String, name: String, source: String, timestamp: u64) -> (r: Foo)
    requires
        old(store).wf(),
    ensures
        final(store).wf(),
        r.id@ == id@ && r.name@ == name@ && r.source@ == source@ && r.timestamp == timestamp,
        final(store)@ == old(store)@.insert(id@, r),
{
    let f = Foo { id: id.clone(), name, source, timestamp };
    let r = copy_foo(&f);
    store.insert(id, f);
    r
}

/// Replaces the name and source of an existing record (HTTP 200), or 404.
pub fn update_foo(
    store: &mut FooStore,
    id: &str,
    name: String,
    source: String,
    timestamp: u64,
) -> (r: Result<Foo, ErrorResponse>)
    requires
        old(store).wf(),
    ensures
        final(store).wf(),
        !old(store)@.contains_key(id@) ==> final(store)@ == old(store)@ && (r matches Err(e) && e.message@
            == foo_not_found(id@)),
        old(store)@.contains_key(id@) ==> (r matches Ok(f) && f.id@ == id@ && f.name@ == name@ && f.source@
            == source@ && f.timestamp == timestamp && final(store)@ == old(store)@.insert(id@, f)),
{
    if !store.contains_key(id) {
        return Err(not_found(id));
    }
    let f = Foo { id: owned(id), name, source, timestamp };
    let r = copy_foo(&f);
    store.insert(owned(id), f);
    Ok(r)
}

/// Replaces the given fields of an existing record (HTTP 200), or 404.
pub fn patch_foo(
    store: &mut FooStore,
    id: &str,
    name: Option<String>,
    source: Option<String>,
    timestamp: u64,
) -> (r: Result<Foo, ErrorResponse>)
    requires
        old(store).wf(),
    ensures
        final(store).wf(),
        !old(store)@.contains_key(id@) ==> final(store)@ == old(store)@ && (r matches Err(e) && e.message@
            == foo_not_found(id@)),
        old(store)@.contains_key(id@) ==> (r matches Ok(f) && final(store)@ == old(store)@.insert(id@, f) && {
            let before = old(store)@[id@];
            &&& f.id == before.id
            &&& f.name == (match name {
                Some(n) => n,
                None => before.name,
            })
            &&& f.source == (match source {
                Some(s) => s,
                None => before.source,
            })
            &&& f.timestamp == timestamp
        }),
{
    let current = match store.get(id) {
        Some(f) => copy_foo(f),
        None => {
            return Err(not_found(id));
        },
    };
    let f = Foo {
        id: current.id,
        name: match name {
            Some(n) => n,
            None => current.name,
        },
        source: match source {
            Some(s) => s,
            None => current.source,
        },
        timestamp,
    };
    let r = copy_foo(&f);
    store.insert(owned(id), f);
    Ok(r)
}

/// Deletes an existing record (HTTP 200), or 404.
pub fn delete_foo(store: &mut FooStore, id: &str) -> (r: Result<DeleteResponse, ErrorResponse>)
    requires
        old(store).wf(),
    ensures
        final(store).wf(),
        final(store)@ == old(store)@.remove(id@),
        old(store)@.contains_key(id@) ==> (r matches Ok(d) && d.message@ == "Foo deleted successfully"@
            && d.id@ == id@),
        !old(store)@.contains_key(id@) ==> (r matches Err(e) && e.message@ == foo_not_found(id@)),
{
    if !store.remove(id) {
        return Err(not_found(id));
    }
    Ok(DeleteResponse { message: owned("Foo deleted successfully"), id: owned(id) })
}

/// A written record reads back: after `create_foo`, `update_foo` or `patch_foo`
/// stored `f` under `id`, `get_foo(id)` returns `f`, and other records are kept.
pub proof fn law_write_then_read(m: Map<Seq<char>, Foo>, id: Seq<char>, f: Foo, other: Seq<char>)
    requires
        other != id,
    ensures
        m.insert(id, f).contains_key(id) && m.insert(id, f)[id] == f,
        m.insert(id, f).contains_key(other) == m.contains_key(other),
        m.contains_key(other) ==> m.insert(id, f)[other] == m[other],
{
}

/// A deleted record is gone: after `delete_foo(id)`, `get_foo(id)` answers 404
/// and a second deletion does too.
pub proof fn law_delete_then_read(m: Map<Seq<char>, Foo>, id: Seq<char>)
    ensures
        !m.remove(id).contains_key(id),
        m.remove(id).remove(id) == m.remove(id),
{
    assert(m.remove(id).remove(id) =~= m.remove(id));
}

} // verus!
