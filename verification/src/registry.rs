//! The table of connected clients, kept in a `dashmap::DashMap`.
//!
//! The verifier does not look inside the map. What it holds is named by
//! [`entries`], and each call into the map states its effect on that name.
//! The map is only ever reached through an exclusive owner, so its entries
//! change by these calls alone.

use vstd::prelude::*;
use dashmap::DashMap;
use uuid::Uuid;
use crate::common::ClientType;
use crate::common::ClientView;
use crate::common::ConnectionInfo;

verus! {

/// `dashmap::DashMap`, a concurrent hash map.
#[verifier::external_type_specification]
#[verifier::external_body]
#[verifier::reject_recursive_types(K)]
#[verifier::reject_recursive_types(V)]
#[verifier::reject_recursive_types(S)]
pub struct ExDashMap<K, V, S>(DashMap<K, V, S>);

/// The key-value pairs a client table holds, each taken by its view.
pub uninterp spec fn entries(table: DashMap<String, ConnectionInfo>) -> Map<Seq<char>, ClientView>;

/// `DashMap::new`: a map with no entries.
#[verifier::external_body]
pub(crate) fn table_new() -> (table: DashMap<String, ConnectionInfo>)
    ensures
        entries(table) == (Map::<Seq<char>, ClientView>::empty()),
{
    DashMap::new()
}

/// `DashMap::insert`: afterwards the key maps to the value, whether or not it
/// was present before; no other key is touched.
#[verifier::external_body]
pub(crate) fn table_insert(
    table: &mut DashMap<String, ConnectionInfo>,
    key: String,
    value: ConnectionInfo,
)
    ensures
        entries(*final(table)) == entries(*old(table)).insert(key@, value@),
{
    table.insert(key, value);
}

/// `DashMap::remove`: afterwards the key is absent; no other key is touched.
#[verifier::external_body]
pub(crate) fn table_remove(table: &mut DashMap<String, ConnectionInfo>, key: &str)
    ensures
        entries(*final(table)) == entries(*old(table)).remove(key@),
{
    table.remove(key);
}

/// `DashMap::iter`: every entry is visited once, in an order that is not
/// fixed. Each entry is handed out as its key and its role.
#[verifier::external_body]
pub(crate) fn table_roles(table: &DashMap<String, ConnectionInfo>) -> (listed: Vec<
    (String, ClientType),
>)
    ensures
        lists(listed@, entries(*table)),
{
    table.iter().map(|entry| (entry.key().clone(), entry.value().client_type)).collect()
}

/// `Uuid::new_v4().to_string()`: a random identifier in its hyphenated form
/// of 36 characters. Nothing else is claimed of it; in particular not that it
/// differs from the identifiers made before.
#[verifier::external_body]
pub(crate) fn random_client_id() -> (id: String)
    ensures
        id@.len() == 36,
{
    Uuid::new_v4().to_string()
}

/// `listed` names every entry of `clients` once, with its role.
pub open spec fn lists(listed: Seq<(String, ClientType)>, clients: Map<Seq<char>, ClientView>) -> bool {
    &&& forall|i: int|
        0 <= i < listed.len() ==> clients.contains_key(#[trigger] listed[i].0@)
            && clients[listed[i].0@].client_type == listed[i].1
    &&& forall|i: int, j: int|
        0 <= i < j < listed.len() ==> (#[trigger] listed[i]).0@ != (#[trigger] listed[j]).0@
    &&& forall|id: Seq<char>| #[trigger]
        clients.contains_key(id) ==> exists|i: int| 0 <= i < listed.len() && listed[i].0@ == id
}

/// Whether a role is one that is being counted; `None` counts every role.
pub open spec fn counted(wanted: Option<ClientType>, role: ClientType) -> bool {
    wanted matches Some(w) ==> w == role
}

/// The identities of the clients in `clients` whose role is counted.
pub open spec fn ids_of(clients: Map<Seq<char>, ClientView>, wanted: Option<ClientType>) -> Set<
    Seq<char>,
> {
    clients.dom().filter(|id: Seq<char>| counted(wanted, clients[id].client_type))
}

/// The identities among the first `n` of `listed` whose role is counted.
pub open spec fn listed_ids(listed: Seq<(String, ClientType)>, wanted: Option<ClientType>, n: int) -> Set<
    Seq<char>,
>
    decreases n,
{
    if n <= 0 {
        Set::empty()
    } else if counted(wanted, listed[n - 1].1) {
        listed_ids(listed, wanted, n - 1).insert(listed[n - 1].0@)
    } else {
        listed_ids(listed, wanted, n - 1)
    }
}

/// What `listed_ids` holds: the counted identities at indices below `n`.
pub proof fn lemma_listed_ids(listed: Seq<(String, ClientType)>, wanted: Option<ClientType>, n: int)
    requires
        0 <= n <= listed.len(),
    ensures
        listed_ids(listed, wanted, n).finite(),
        forall|id: Seq<char>|
            listed_ids(listed, wanted, n).contains(id) <==> exists|i: int|
                0 <= i < n && #[trigger] listed[i].0@ == id && counted(wanted, listed[i].1),
    decreases n,
{
    if n > 0 {
        lemma_listed_ids(listed, wanted, n - 1);
        let prev = listed_ids(listed, wanted, n - 1);
        let cur = listed_ids(listed, wanted, n);
        assert forall|id: Seq<char>| cur.contains(id) implies exists|i: int|
            0 <= i < n && #[trigger] listed[i].0@ == id && counted(wanted, listed[i].1) by {
            if prev.contains(id) {
                let i = choose|i: int|
                    0 <= i < n - 1 && #[trigger] listed[i].0@ == id && counted(
                        wanted,
                        listed[i].1,
                    );
                assert(0 <= i < n && listed[i].0@ == id);
            } else {
                assert(listed[n - 1].0@ == id);
            }
        }
        assert forall|id: Seq<char>|
            (exists|i: int|
                0 <= i < n && #[trigger] listed[i].0@ == id && counted(
                    wanted,
                    listed[i].1,
                )) implies cur.contains(id) by {
            let i = choose|i: int|
                0 <= i < n && #[trigger] listed[i].0@ == id && counted(wanted, listed[i].1);
            if i < n - 1 {
                assert(prev.contains(id));
            }
        }
    }
}

/// Counting the first `n + 1` listed entries: one more than the first `n`
/// where the entry at `n` is counted, as many otherwise.
pub proof fn lemma_listed_ids_step(
    listed: Seq<(String, ClientType)>,
    clients: Map<Seq<char>, ClientView>,
    wanted: Option<ClientType>,
    n: int,
)
    requires
        lists(listed, clients),
        0 <= n < listed.len(),
    ensures
        listed_ids(listed, wanted, n + 1).len() == listed_ids(listed, wanted, n).len() + if counted(
            wanted,
            listed[n].1,
        ) {
            1nat
        } else {
            0nat
        },
{
    lemma_listed_ids(listed, wanted, n);
    if counted(wanted, listed[n].1) {
        let prev = listed_ids(listed, wanted, n);
        if prev.contains(listed[n].0@) {
            let i = choose|i: int|
                0 <= i < n && #[trigger] listed[i].0@ == listed[n].0@ && counted(
                    wanted,
                    listed[i].1,
                );
            assert(listed[i].0@ != listed[n].0@);
        }
    }
}

/// A full listing names exactly the counted clients.
pub proof fn lemma_listed_ids_all(
    listed: Seq<(String, ClientType)>,
    clients: Map<Seq<char>, ClientView>,
    wanted: Option<ClientType>,
)
    requires
        lists(listed, clients),
    ensures
        listed_ids(listed, wanted, listed.len() as int) == ids_of(clients, wanted),
{
    let n = listed.len() as int;
    lemma_listed_ids(listed, wanted, n);
    let all = listed_ids(listed, wanted, n);
    let want = ids_of(clients, wanted);
    assert forall|id: Seq<char>| all.contains(id) implies want.contains(id) by {
        let i = choose|i: int|
            0 <= i < n && #[trigger] listed[i].0@ == id && counted(wanted, listed[i].1);
        assert(clients.contains_key(listed[i].0@));
    }
    assert forall|id: Seq<char>| want.contains(id) implies all.contains(id) by {
        assert(clients.contains_key(id));
        let i = choose|i: int| 0 <= i < listed.len() && listed[i].0@ == id;
        assert(clients.contains_key(listed[i].0@));
        assert(0 <= i < n && listed[i].0@ == id && counted(wanted, listed[i].1));
    }
    assert(all =~= want);
}

} // verus!
