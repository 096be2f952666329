//! One client's connection to the signaling server: what each message from
//! the client leads to, what a viewer is sent, and the clean-up when the
//! connection ends.

use vstd::prelude::*;
use crate::bus::Subscription;
use crate::bus::TryRecvError;
use crate::common::ClientType;
use crate::common::EnvelopeView;
use crate::common::FrameMessage;
use crate::common::Message;
use crate::signaling_server::ClientId;
use crate::signaling_server::SignalingServer;

verus! {

/// What is sent back to the client in answer to a message.
#[derive(Debug, Clone, Copy, PartialEq, Eq, Structural)]
pub enum Reply {
    /// Nothing is sent back.
    Nothing,
    /// The answer to a keepalive request.
    Pong,
}

/// The state of one connection: the identity the client is registered
/// under, once it has registered, and a viewer's subscription.
pub struct Session {
    client_id: Option<ClientId>,
    subscription: Option<Subscription>,
}

impl Session {
    /// The identity the client is registered under, if it has registered.
    pub closed spec fn registered(&self) -> Option<Seq<char>> {
        match self.client_id {
            Some(id) => Some(id@),
            None => None,
        }
    }

    /// The position of the viewer's cursor, if the client is a viewer.
    pub closed spec fn cursor(&self) -> Option<nat> {
        match self.subscription {
            Some(subscription) => Some(subscription.cursor()),
            None => None,
        }
    }

    /// The session's cursor, where it has one, is not ahead of the server's bus.
    pub open spec fn attached(&self, server: &SignalingServer) -> bool {
        self.cursor() matches Some(cursor) ==> cursor <= server.frames().position()
    }

    /// The registry once the session's own entry, if any, is taken out.
    pub open spec fn clients_without(&self, server: &SignalingServer) -> Map<
        Seq<char>,
        crate::common::ClientView,
    > {
        match self.registered() {
            Some(id) => server.clients().remove(id),
            None => server.clients(),
        }
    }

    /// The state of a connection on which nothing has been received yet.
    pub fn new() -> (session: Session)
        ensures
            session.registered() is None,
            session.cursor() is None,
    {
        Session { client_id: None, subscription: None }
    }

    /// Registers the client with `client_type`. A client that was registered
    /// on this connection before is unregistered first, so that a connection
    /// never holds more than one entry of the registry.
    pub fn register(&mut self, server: &mut SignalingServer, client_type: ClientType)
        requires
            old(server).wf(),
        ensures
            final(server).wf(),
            final(server).frames() == old(server).frames(),
            final(self).registered() is Some,
            final(self).registered()->0.len() == 36,
            final(server).clients().dom() == old(self).clients_without(old(server)).dom().insert(
                final(self).registered()->0,
            ),
            final(self).clients_without(final(server)) == old(self).clients_without(
                old(server),
            ).remove(final(self).registered()->0),
            final(server).clients()[final(self).registered()->0].client_type == client_type,
            client_type == ClientType::Sender ==> final(self).cursor() is None,
            client_type == ClientType::Viewer ==> final(self).cursor() == Some(
                old(server).frames().position(),
            ),
            final(self).attached(final(server)),
    {
        match &self.client_id {
            Some(previous) => {
                server.unregister(previous.as_str());
            },
            None => {},
        }
        let (client_id, subscription) = server.register(client_type);
        proof {
            let before = old(self).clients_without(old(server));
            assert(server.clients().remove(client_id@) == before.remove(client_id@));
        }
        self.client_id = Some(client_id);
        self.subscription = subscription;
    }

    /// Acts on one message from the client and tells what to send back.
    ///
    /// A registration registers the client with the role it names; the
    /// identity it names is not used, the registry draws its own. A frame is
    /// published for every viewer. A keepalive request is answered. Nothing
    /// else has an effect.
    pub fn handle_message(&mut self, server: &mut SignalingServer, message: Message) -> (reply:
        Reply)
        requires
            old(server).wf(),
            old(self).attached(old(server)),
            old(server).frames().position() < u64::MAX,
        ensures
            final(server).wf(),
            final(self).attached(final(server)),
            reply == if message is Ping {
                Reply::Pong
            } else {
                Reply::Nothing
            },
            message is Register ==> final(self).registered() is Some,
            message is Register ==> final(server).clients().dom() == old(self).clients_without(
                old(server),
            ).dom().insert(final(self).registered()->0),
            message is Register ==> final(server).clients()[final(
                self
            ).registered()->0].client_type == message->client_type,
            message is Register ==> final(server).frames() == old(server).frames(),
            message is Register ==> final(self).cursor() == if message->client_type
                == ClientType::Viewer {
                Some(old(server).frames().position())
            } else {
                None::<nat>
            },
            message is Frame ==> final(server).clients() == old(server).clients(),
            message is Frame ==> final(server).frames().history() == published(
                old(server),
                message->Frame_0@,
            ),
            !(message is Register) ==> final(self).registered() == old(self).registered(),
            !(message is Register) ==> final(self).cursor() == old(self).cursor(),
            !(message is Register) && !(message is Frame) ==> final(server).clients() == old(
                server,
            ).clients(),
            !(message is Register) && !(message is Frame) ==> final(server).frames() == old(
                server,
            ).frames(),
    {
        match message {
            Message::Register { client_id: _, client_type } => {
                self.register(server, client_type);
                Reply::Nothing
            },
            Message::Frame(frame) => {
                let _ = server.broadcast_frame(frame);
                Reply::Nothing
            },
            Message::Ping => Reply::Pong,
            Message::Pong => Reply::Nothing,
            Message::Error(_) => Reply::Nothing,
        }
    }

    /// What the bus has for this connection's viewer, read without waiting;
    /// `None` where the client is no viewer.
    pub fn poll(&mut self, server: &SignalingServer) -> (polled: Option<
        Result<FrameMessage, TryRecvError>,
    >)
        requires
            server.wf(),
            old(self).attached(server),
        ensures
            final(self).attached(server),
            final(self).registered() == old(self).registered(),
            old(self).cursor() is None ==> polled is None && final(self).cursor() is None,
            old(self).cursor() matches Some(cursor) ==> polled is Some && final(self).cursor()
                == Some(server.frames().read_at(cursor as int).cursor as nat) && (match polled->0 {
                Ok(envelope) => server.frames().read_at(cursor as int).outcome == Ok::<
                    EnvelopeView,
                    TryRecvError,
                >(envelope@),
                Err(e) => server.frames().read_at(cursor as int).outcome == Err::<
                    EnvelopeView,
                    TryRecvError,
                >(e),
            }),
    {
        match &mut self.subscription {
            Some(subscription) => Some(subscription.try_recv(server.bus())),
            None => None,
        }
    }

    /// Ends the connection: the client's entry, if it has one, leaves the
    /// registry. This is owed on every way out of a connection.
    pub fn close(self, server: &mut SignalingServer)
        requires
            old(server).wf(),
        ensures
            final(server).wf(),
            final(server).frames() == old(server).frames(),
            final(server).clients() == self.clients_without(old(server)),
    {
        match &self.client_id {
            Some(client_id) => {
                server.unregister(client_id.as_str());
            },
            None => {},
        }
    }
}

/// The history of the server's bus once `envelope` has been handed to it: one
/// longer, unless the bus is closed.
pub open spec fn published(server: &SignalingServer, envelope: EnvelopeView) -> Seq<EnvelopeView> {
    if !server.frames().shut() {
        server.frames().history().push(envelope)
    } else {
        server.frames().history()
    }
}

/// A connection that registers a client whose identity is new to the
/// registry and is then closed leaves the registry as it found it: no entry
/// outlives its connection.
pub proof fn lemma_close_undoes_register(
    before: Map<Seq<char>, crate::common::ClientView>,
    id: Seq<char>,
    entry: crate::common::ClientView,
)
    requires
        !before.contains_key(id),
    ensures
        before.insert(id, entry).remove(id) == before,
{
    assert(before.insert(id, entry).remove(id) =~= before);
}

} // verus!
