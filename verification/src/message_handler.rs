//! Routing of direct requests to the service whose UUID they carry.
use vstd::prelude::*;
use crate::service::{DirectRequest, Response, Service, ServiceError};

verus! {

/// A chain of services; a request goes to the first one with its UUID.
pub struct MessageHandler<N> {
    pub node: N,
}

impl MessageHandler<HandlerNodeTerminal> {
    /// A handler without any service.
    pub fn new() -> (r: Self)
        ensures
            r.node == HandlerNodeTerminal,
    {
        MessageHandler { node: HandlerNodeTerminal }
    }
}

impl Default for MessageHandler<HandlerNodeTerminal> {
    fn default() -> (r: Self)
        ensures
            r.node == HandlerNodeTerminal,
    {
        Self::new()
    }
}

impl<N: HandlerNode> MessageHandler<N> {
    /// Puts `service` in front of the chain.
    pub fn append<S: Service>(self, service: S) -> (r: MessageHandler<HandlerNodeInner<S, N>>)
        ensures
            r.node.service == service,
            r.node.next == self.node,
            HandlerNodeInner::<S, N>::uuids() == seq![S::UUID].add(N::uuids()),
    {
        let node = HandlerNodeInner { service, next: self.node };
        MessageHandler { node }
    }

    /// Hands `msg` to the first service of the chain with its UUID.
    pub fn handle(&mut self, msg: &DirectRequest) -> (r: Result<Response, ServiceError>)
        ensures
            old(self).node.handled(*msg, final(self).node, r),
    {
        self.node.handle(msg)
    }
}

/// A node of the chain of services.
pub trait HandlerNode: Sized {
    /// The UUIDs of the services from this node to the end of the chain, in order.
    spec fn uuids() -> Seq<u128>;

    /// Whether `after` and `r` are a possible state and answer of the chain
    /// after it handled `msg` in state `self`.
    spec fn handled(self, msg: DirectRequest, after: Self, r: Result<Response, ServiceError>) -> bool;

    /// Hands `msg` to the first service with its UUID.
    fn handle(&mut self, msg: &DirectRequest) -> (r: Result<Response, ServiceError>)
        ensures
            old(self).handled(*msg, *final(self), r),
    ;

    /// A request whose UUID no service of the chain has is refused with
    /// `UnknownUuid`, and the chain is left as it was.
    proof fn lemma_unknown_uuid(self, msg: DirectRequest, after: Self, r: Result<Response, ServiceError>)
        requires
            self.handled(msg, after, r),
            !Self::uuids().contains(msg.uuid),
        ensures
            after == self,
            r == Err::<Response, ServiceError>(ServiceError::UnknownUuid),
    ;
}

/// A node holding a service and the rest of the chain.
pub struct HandlerNodeInner<S, N> {
    pub service: S,
    pub next: N,
}

/// The end of the chain.
#[derive(PartialEq, Eq, Structural)]
pub struct HandlerNodeTerminal;

impl HandlerNode for HandlerNodeTerminal {
    open spec fn uuids() -> Seq<u128> {
        Seq::empty()
    }

    open spec fn handled(self, msg: DirectRequest, after: Self, r: Result<Response, ServiceError>) -> bool {
        &&& after == self
        &&& r == Err::<Response, ServiceError>(ServiceError::UnknownUuid)
    }

    fn handle(&mut self, msg: &DirectRequest) -> (r: Result<Response, ServiceError>) {
        Err(ServiceError::UnknownUuid)
    }

    proof fn lemma_unknown_uuid(self, msg: DirectRequest, after: Self, r: Result<Response, ServiceError>) {
    }
}

impl<S: Service, N: HandlerNode> HandlerNode for HandlerNodeInner<S, N> {
    open spec fn uuids() -> Seq<u128> {
        seq![S::UUID].add(N::uuids())
    }

    open spec fn handled(self, msg: DirectRequest, after: Self, r: Result<Response, ServiceError>) -> bool {
        if msg.uuid == S::UUID {
            &&& self.service.handled(msg, after.service, r)
            &&& after.next == self.next
        } else {
            &&& after.service == self.service
            &&& self.next.handled(msg, after.next, r)
        }
    }

    fn handle(&mut self, msg: &DirectRequest) -> (r: Result<Response, ServiceError>) {
        if S::UUID == msg.uuid {
            self.service.ffa_msg_send_direct_req2(msg)
        } else {
            self.next.handle(msg)
        }
    }

    proof fn lemma_unknown_uuid(self, msg: DirectRequest, after: Self, r: Result<Response, ServiceError>) {
        assert(Self::uuids()[0] == S::UUID);
        assert forall|i: int| 0 <= i < N::uuids().len() implies N::uuids()[i] != msg.uuid by {
            assert(Self::uuids()[i + 1] == N::uuids()[i]);
        }
        self.next.lemma_unknown_uuid(msg, after.next, r);
    }
}

/// A request whose UUID no appended service has is refused with
/// `UnknownUuid`, and every service is left as it was.
pub proof fn lemma_unknown_uuid_refused<N: HandlerNode>(
    h: MessageHandler<N>,
    msg: DirectRequest,
    after: MessageHandler<N>,
    r: Result<Response, ServiceError>,
)
    requires
        h.node.handled(msg, after.node, r),
        !N::uuids().contains(msg.uuid),
    ensures
        after.node == h.node,
        r == Err::<Response, ServiceError>(ServiceError::UnknownUuid),
{
    h.node.lemma_unknown_uuid(msg, after.node, r);
}

/// A handler without services refuses every request with `UnknownUuid`.
pub proof fn lemma_empty_handler_refuses(
    h: MessageHandler<HandlerNodeTerminal>,
    msg: DirectRequest,
    after: MessageHandler<HandlerNodeTerminal>,
    r: Result<Response, ServiceError>,
)
    requires
        h.node.handled(msg, after.node, r),
    ensures
        r == Err::<Response, ServiceError>(ServiceError::UnknownUuid),
{
}

/// A request carrying the UUID of the service at the front of the chain is
/// answered by that service alone: the rest of the chain is left as it was.
/// A request carrying another UUID leaves that service as it was and is
/// handled by the rest of the chain.
pub proof fn lemma_routes_by_uuid<S: Service, N: HandlerNode>(
    h: MessageHandler<HandlerNodeInner<S, N>>,
    msg: DirectRequest,
    after: MessageHandler<HandlerNodeInner<S, N>>,
    r: Result<Response, ServiceError>,
)
    requires
        h.node.handled(msg, after.node, r),
    ensures
        msg.uuid == S::UUID ==> h.node.service.handled(msg, after.node.service, r) && after.node.next == h.node.next,
        msg.uuid != S::UUID ==> after.node.service == h.node.service && h.node.next.handled(msg, after.node.next, r),
{
}

/// Of two services appended in turn, a request for either UUID reaches it:
/// the later one is asked first, and the earlier one answers what the later
/// one does not claim.
pub proof fn lemma_two_services_reachable<A: Service, B: Service, N: HandlerNode>(
    h: MessageHandler<HandlerNodeInner<B, HandlerNodeInner<A, N>>>,
    msg: DirectRequest,
    after: MessageHandler<HandlerNodeInner<B, HandlerNodeInner<A, N>>>,
    r: Result<Response, ServiceError>,
)
    requires
        h.node.handled(msg, after.node, r),
    ensures
        msg.uuid == B::UUID ==> h.node.service.handled(msg, after.node.service, r),
        msg.uuid != B::UUID && msg.uuid == A::UUID ==> h.node.next.service.handled(msg, after.node.next.service, r)
            && after.node.service == h.node.service && after.node.next.next == h.node.next.next,
{
}

} // verus!
