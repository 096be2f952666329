//! The signaling server: the registry of connected clients and the frame bus
//! that carries envelopes from senders to viewers.

use vstd::prelude::*;
use dashmap::DashMap;
use std::time::Instant;
use crate::bus::FrameBus;
use crate::bus::Subscription;
use crate::clock::monotonic_now;
use crate::common::ClientType;
use crate::common::ClientView;
use crate::common::ConnectionInfo;
use crate::common::EnvelopeView;
use crate::common::FrameMessage;
use crate::config::Config;
use vstd::set_lib::lemma_set_disjoint_lens;
use crate::registry::counted;
use crate::registry::entries;
use crate::registry::ids_of;
use crate::registry::lemma_listed_ids_all;
use crate::registry::lemma_listed_ids_step;
use crate::registry::listed_ids;
use crate::registry::lists;
use crate::registry::random_client_id;
use crate::registry::table_insert;
use crate::registry::table_new;
use crate::registry::table_remove;
use crate::registry::table_roles;

verus! {

/// The identity under which a client is registered.
pub type ClientId = String;

/// The number of envelopes the server's bus holds.
pub const BUS_CAPACITY: usize = 100;

/// The error in the result of a broadcast. No broadcast fails, so none is
/// ever returned.
#[derive(Debug, Clone, Copy, PartialEq, Eq, Structural)]
pub struct BroadcastError;

/// The registry of connected clients together with the bus they share.
pub struct SignalingServer {
    connections: DashMap<ClientId, ConnectionInfo>,
    bus: FrameBus,
}

impl SignalingServer {
    /// The registered clients, by identity.
    pub closed spec fn clients(&self) -> Map<Seq<char>, ClientView> {
        entries(self.connections)
    }

    /// The bus that carries the frames.
    pub closed spec fn frames(&self) -> FrameBus {
        self.bus
    }

    /// The registry is finite and the bus is well formed.
    pub open spec fn wf(&self) -> bool {
        &&& self.clients().dom().finite()
        &&& self.frames().wf()
        &&& self.frames().limit() == BUS_CAPACITY
    }

    /// The number of registered clients with the given role.
    pub open spec fn count(&self, role: ClientType) -> nat {
        ids_of(self.clients(), Some(role)).len()
    }

    /// The number of registered clients.
    pub open spec fn total(&self) -> nat {
        self.clients().dom().len()
    }

    /// A server with no clients and an empty, open bus.
    pub fn new(_config: Config) -> (server: SignalingServer)
        ensures
            server.wf(),
            server.clients() == Map::<Seq<char>, ClientView>::empty(),
            server.frames().history() == Seq::<EnvelopeView>::empty(),
            !server.frames().shut(),
    {
        SignalingServer { connections: table_new(), bus: FrameBus::new(BUS_CAPACITY) }
    }

    /// Enters a client under `client_id`, replacing whatever was registered
    /// under that identity, and gives a viewer its subscription.
    pub fn register_client(
        &mut self,
        client_id: ClientId,
        client_type: ClientType,
        connected_at: Instant,
    ) -> (subscription: Option<Subscription>)
        requires
            old(self).wf(),
        ensures
            final(self).wf(),
            final(self).frames() == old(self).frames(),
            final(self).clients() == old(self).clients().insert(
                client_id@,
                ClientView { client_id: client_id@, client_type, connected_at },
            ),
            client_type == ClientType::Sender ==> subscription is None,
            client_type == ClientType::Viewer ==> subscription is Some
                && subscription->0.cursor() == old(self).frames().position(),
    {
        let info = ConnectionInfo { client_id: client_id.clone(), client_type, connected_at };
        table_insert(&mut self.connections, client_id, info);
        match client_type {
            ClientType::Sender => None,
            ClientType::Viewer => Some(self.bus.subscribe()),
        }
    }

    /// Registers a client under a newly drawn identity and returns the
    /// identity; a viewer also gets a subscription that starts at the bus's
    /// write position, a sender gets none.
    ///
    /// The identity is random. Where it is not yet in the registry, the
    /// registry grows by one entry.
    pub fn register(&mut self, client_type: ClientType) -> (registered: (
        ClientId,
        Option<Subscription>,
    ))
        requires
            old(self).wf(),
        ensures
            final(self).wf(),
            final(self).frames() == old(self).frames(),
            registered.0@.len() == 36,
            final(self).clients().dom() == old(self).clients().dom().insert(registered.0@),
            final(self).clients().remove(registered.0@) == old(self).clients().remove(
                registered.0@,
            ),
            final(self).clients()[registered.0@].client_id == registered.0@,
            final(self).clients()[registered.0@].client_type == client_type,
            client_type == ClientType::Sender ==> registered.1 is None,
            client_type == ClientType::Viewer ==> registered.1 is Some
                && registered.1->0.cursor() == old(self).frames().position(),
    {
        let client_id = random_client_id();
        let connected_at = monotonic_now();
        let subscription = self.register_client(client_id.clone(), client_type, connected_at);
        proof {
            let view = ClientView { client_id: client_id@, client_type, connected_at };
            assert(old(self).clients().insert(client_id@, view).remove(client_id@) == old(
                self,
            ).clients().remove(client_id@));
        }
        (client_id, subscription)
    }

    /// Removes the client registered under `client_id`; does nothing when
    /// there is none.
    pub fn unregister(&mut self, client_id: &str)
        requires
            old(self).wf(),
        ensures
            final(self).wf(),
            final(self).frames() == old(self).frames(),
            final(self).clients() == old(self).clients().remove(client_id@),
    {
        table_remove(&mut self.connections, client_id);
    }

    /// Publishes `frame` on the bus for every subscription to read. Succeeds
    /// whatever the number of viewers and whatever their pace. A closed bus
    /// takes nothing.
    pub fn broadcast_frame(&mut self, frame: FrameMessage) -> (sent: Result<(), BroadcastError>)
        requires
            old(self).wf(),
            old(self).frames().position() < u64::MAX,
        ensures
            final(self).wf(),
            sent is Ok,
            final(self).clients() == old(self).clients(),
            final(self).frames().shut() == old(self).frames().shut(),
            final(self).frames().history() == if old(self).frames().shut() {
                old(self).frames().history()
            } else {
                old(self).frames().history().push(frame@)
            },
    {
        self.bus.publish(frame);
        Ok(())
    }

    /// The number of clients registered with `role`.
    pub fn count_role(&self, role: ClientType) -> (n: usize)
        requires
            self.wf(),
        ensures
            n == self.count(role),
    {
        let listed = table_roles(&self.connections);
        let ghost wanted = Some(role);
        let mut n: usize = 0;
        let mut i: usize = 0;
        while i < listed.len()
            invariant
                0 <= i <= listed.len(),
                lists(listed@, self.clients()),
                wanted == Some(role),
                n <= i,
                n == listed_ids(listed@, wanted, i as int).len(),
            decreases listed.len() - i,
        {
            proof {
                lemma_listed_ids_step(listed@, self.clients(), wanted, i as int);
            }
            if is_role(listed[i].1, role) {
                n = n + 1;
            }
            i = i + 1;
        }
        proof {
            lemma_listed_ids_all(listed@, self.clients(), wanted);
        }
        n
    }

    /// The number of registered senders.
    pub fn sender_count(&self) -> (n: usize)
        requires
            self.wf(),
        ensures
            n == self.count(ClientType::Sender),
    {
        self.count_role(ClientType::Sender)
    }

    /// The number of registered viewers.
    pub fn viewer_count(&self) -> (n: usize)
        requires
            self.wf(),
        ensures
            n == self.count(ClientType::Viewer),
    {
        self.count_role(ClientType::Viewer)
    }

    /// The identities of the registered clients, each once, in no fixed order.
    pub fn get_client_ids(&self) -> (ids: Vec<ClientId>)
        requires
            self.wf(),
        ensures
            ids@.len() == self.total(),
            forall|i: int| 0 <= i < ids@.len() ==> self.clients().contains_key(#[trigger] ids@[i]@),
            forall|i: int, j: int|
                0 <= i < j < ids@.len() ==> (#[trigger] ids@[i])@ != (#[trigger] ids@[j])@,
            forall|id: Seq<char>| #[trigger]
                self.clients().contains_key(id) ==> exists|i: int|
                    0 <= i < ids@.len() && ids@[i]@ == id,
    {
        let listed = table_roles(&self.connections);
        let ghost wanted: Option<ClientType> = None;
        let mut ids: Vec<ClientId> = Vec::new();
        let mut i: usize = 0;
        while i < listed.len()
            invariant
                0 <= i <= listed.len(),
                lists(listed@, self.clients()),
                wanted is None,
                ids@.len() == i,
                forall|k: int| 0 <= k < i ==> (#[trigger] ids@[k])@ == listed@[k].0@,
                i == listed_ids(listed@, wanted, i as int).len(),
            decreases listed.len() - i,
        {
            proof {
                lemma_listed_ids_step(listed@, self.clients(), wanted, i as int);
            }
            ids.push(listed[i].0.clone());
            i = i + 1;
        }
        proof {
            lemma_listed_ids_all(listed@, self.clients(), wanted);
            assert(ids_of(self.clients(), wanted) =~= self.clients().dom());
            assert forall|id: Seq<char>| #[trigger] self.clients().contains_key(id) implies exists|
                i: int,
            |
                0 <= i < ids@.len() && ids@[i]@ == id by {
                let k = choose|k: int| 0 <= k < listed@.len() && listed@[k].0@ == id;
                assert(ids@[k]@ == id);
            }
        }
        ids
    }

    /// The bus, for publishing by senders.
    pub fn frame_broadcaster(&mut self) -> (bus: &mut FrameBus)
        ensures
            *bus == old(self).frames(),
            final(self).frames() == *final(bus),
            final(self).clients() == old(self).clients(),
    {
        &mut self.bus
    }

    /// The bus, for reading by subscriptions.
    pub fn bus(&self) -> (bus: &FrameBus)
        ensures
            *bus == self.frames(),
    {
        &self.bus
    }
}

/// Whether two roles are the same.
fn is_role(a: ClientType, b: ClientType) -> (same: bool)
    ensures
        same == (a == b),
{
    a == b
}

/// The senders and the viewers together are all the registered clients.
pub proof fn lemma_roles_partition_clients(server: SignalingServer)
    requires
        server.wf(),
    ensures
        server.count(ClientType::Sender) + server.count(ClientType::Viewer) == server.total(),
{
    let senders = ids_of(server.clients(), Some(ClientType::Sender));
    let viewers = ids_of(server.clients(), Some(ClientType::Viewer));
    let all = server.clients().dom();
    assert(senders.disjoint(viewers));
    assert(senders + viewers =~= all) by {
        assert forall|id: Seq<char>| all.contains(id) implies (senders + viewers).contains(id) by {
            match server.clients()[id].client_type {
                ClientType::Sender => {
                    assert(senders.contains(id));
                },
                ClientType::Viewer => {
                    assert(viewers.contains(id));
                },
            }
        }
    }
    all.lemma_len_filter(
        |id: Seq<char>| counted(Some(ClientType::Sender), server.clients()[id].client_type),
    );
    all.lemma_len_filter(
        |id: Seq<char>| counted(Some(ClientType::Viewer), server.clients()[id].client_type),
    );
    lemma_set_disjoint_lens(senders, viewers);
}

/// A client entered under an identity that is new to the registry is one
/// client more: the count of its role grows by one, the count of the other
/// role stays, and so does the sum of what each role counts and the total
/// agree.
pub proof fn lemma_new_client_is_counted(
    before: SignalingServer,
    after: SignalingServer,
    id: Seq<char>,
    entry: ClientView,
)
    requires
        before.wf(),
        !before.clients().contains_key(id),
        after.clients() == before.clients().insert(id, entry),
    ensures
        after.total() == before.total() + 1,
        after.count(entry.client_type) == before.count(entry.client_type) + 1,
        forall|role: ClientType|
            role != entry.client_type ==> #[trigger] after.count(role) == before.count(role),
{
    let own = entry.client_type;
    before.clients().dom().lemma_len_filter(
        |k: Seq<char>| counted(Some(own), before.clients()[k].client_type),
    );
    assert(ids_of(after.clients(), Some(own)) =~= ids_of(before.clients(), Some(own)).insert(id));
    assert forall|role: ClientType| role != own implies #[trigger] after.count(role)
        == before.count(role) by {
        assert(ids_of(after.clients(), Some(role)) =~= ids_of(before.clients(), Some(role)));
    }
}

/// A client taken out of the registry is one client less: the count of its
/// role falls by one and the count of the other role stays. Taking out an
/// identity that is not registered changes no count.
pub proof fn lemma_removed_client_is_uncounted(
    before: SignalingServer,
    after: SignalingServer,
    id: Seq<char>,
)
    requires
        before.wf(),
        after.clients() == before.clients().remove(id),
    ensures
        !before.clients().contains_key(id) ==> after.clients() == before.clients(),
        before.clients().contains_key(id) ==> after.total() == before.total() - 1,
        before.clients().contains_key(id) ==> after.count(before.clients()[id].client_type)
            == before.count(before.clients()[id].client_type) - 1,
        forall|role: ClientType|
            before.clients().contains_key(id) && role != before.clients()[id].client_type
                ==> #[trigger] after.count(role) == before.count(role),
{
    if before.clients().contains_key(id) {
        let own = before.clients()[id].client_type;
        before.clients().dom().lemma_len_filter(
            |k: Seq<char>| counted(Some(own), before.clients()[k].client_type),
        );
        assert(ids_of(after.clients(), Some(own)) =~= ids_of(before.clients(), Some(own)).remove(
            id,
        ));
        assert forall|role: ClientType| role != own implies #[trigger] after.count(role)
            == before.count(role) by {
            assert(ids_of(after.clients(), Some(role)) =~= ids_of(before.clients(), Some(role)));
        }
    } else {
        assert(after.clients() =~= before.clients());
    }
}

} // verus!
