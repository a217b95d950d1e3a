//! The rings that a server routes clients to, by port name.

use crate::error::{peer_disconnected, Error, ErrorKind};
use crate::handshake::protocol::{
    law_ports_are_valid_by_their_length, port_fault, validate_port,
};
use crate::ipc::producer::Producer;
use crate::ipc::registered::RegisteredRing;
use crate::mapping::{layout_on_machine, Layout};
use std::collections::HashSet;
use vstd::hash_map::StringHashMap;
use vstd::prelude::*;
use vstd::utf8::encode_utf8;

verus! {

broadcast use vstd::std_specs::hash::group_hash_axioms;

/// The rings of one server.
///
/// A ring is live from its registration until it is retired, which is when its producer
/// and the last handshake that uses it are gone.
pub struct ServerRegistry {
    rings_by_port: StringHashMap<u64>,
    live: HashSet<u64>,
    issued: u64,
}

/// A ring that was just registered.
#[derive(Debug)]
pub struct Registration {
    /// What the registry knows the ring by.
    pub id: u64,
    pub ring: RegisteredRing,
    pub producer: Producer,
}

impl ServerRegistry {
    /// The live ring of each port that has one.
    pub closed spec fn live(&self) -> Map<Seq<char>, u64> {
        self.rings_by_port@.restrict(
            Set::new(
                |port: Seq<char>|
                    self.rings_by_port@.contains_key(port) && self.live@.contains(
                        self.rings_by_port@[port],
                    ),
            ),
        )
    }

    /// How many rings have been registered so far.
    pub closed spec fn issued(&self) -> int {
        self.issued as int
    }

    /// Rings are known by what was issued so far, and no two ports by the same.
    pub closed spec fn wf(&self) -> bool {
        &&& forall|port: Seq<char>| #[trigger]
            self.rings_by_port@.contains_key(port) ==> self.rings_by_port@[port] < self.issued
        &&& forall|a: Seq<char>, b: Seq<char>|
            #[trigger] self.rings_by_port@.contains_key(a)
                && #[trigger] self.rings_by_port@.contains_key(b) && self.rings_by_port@[a]
                == self.rings_by_port@[b] ==> a == b
        &&& forall|id: u64| #[trigger] self.live@.contains(id) ==> id < self.issued
    }

    /// No two ports lead to the same ring.
    pub proof fn lemma_ports_are_apart(&self)
        requires
            self.wf(),
        ensures
            forall|a: Seq<char>, b: Seq<char>|
                #[trigger] self.live().contains_key(a) && #[trigger] self.live().contains_key(b)
                    && self.live()[a] == self.live()[b] ==> a == b,
            forall|port: Seq<char>| #[trigger]
                self.live().contains_key(port) ==> self.live()[port] < self.issued(),
    {
        assert forall|a: Seq<char>, b: Seq<char>|
            #[trigger] self.live().contains_key(a) && #[trigger] self.live().contains_key(b)
                && self.live()[a] == self.live()[b] implies a == b by {
            assert(self.rings_by_port@.contains_key(a));
            assert(self.rings_by_port@.contains_key(b));
        }
        assert forall|port: Seq<char>| #[trigger] self.live().contains_key(port) implies self.live()[port]
            < self.issued() by {
            assert(self.rings_by_port@.contains_key(port));
        }
    }

    /// Returns a registry without rings.
    pub fn new() -> (registry: Self)
        ensures
            registry.wf(),
            registry.issued() == 0,
            registry.live() == Map::<Seq<char>, u64>::empty(),
    {
        let registry = ServerRegistry {
            rings_by_port: StringHashMap::new(),
            live: HashSet::new(),
            issued: 0,
        };
        assert(registry.live() =~= Map::<Seq<char>, u64>::empty());
        registry
    }

    /// Returns how many rings have been registered so far.
    pub fn registrations(&self) -> (issued: u64)
        ensures
            issued == self.issued(),
    {
        self.issued
    }

    /// Returns the live ring of `port`, if it has one.
    pub fn find(&self, port: &str) -> (ring: Option<u64>)
        requires
            self.wf(),
        ensures
            ring == (if self.live().contains_key(port@) {
                Some(self.live()[port@])
            } else {
                None
            }),
    {
        match self.rings_by_port.get(port) {
            Some(id) => if self.live.contains(id) {
                Some(*id)
            } else {
                None
            },
            None => None,
        }
    }

    /// What keeps `port` from being registered, if anything.
    pub open spec fn refusal(&self, port: Seq<char>) -> Option<Error> {
        match port_fault(port) {
            Some(error) => Some(error),
            None => if self.live().contains_key(port) {
                Some(Error::Bare(ErrorKind::AlreadyExists))
            } else {
                None
            },
        }
    }

    /// Checks that `port` is a valid name without a live ring.
    pub fn prepare(&self, port: &str) -> (outcome: Result<(), Error>)
        requires
            self.wf(),
        ensures
            outcome == (match self.refusal(port@) {
                Some(error) => Err::<(), Error>(error),
                None => Ok(()),
            }),
            outcome is Ok <==> 0 < encode_utf8(port@).len() <= 255 && !self.live().contains_key(
                port@,
            ),
    {
        match validate_port(port) {
            Ok(()) => {},
            Err(error) => return Err(error),
        }
        if self.find(port).is_some() {
            Err(Error::Bare(ErrorKind::AlreadyExists))
        } else {
            Ok(())
        }
    }

    /// Makes a new ring the live one of `port`, and returns what it is known by.
    pub fn commit(&mut self, port: String) -> (id: u64)
        requires
            old(self).wf(),
            old(self).issued() < u64::MAX,
        ensures
            final(self).wf(),
            id == old(self).issued(),
            final(self).issued() == old(self).issued() + 1,
            final(self).live() == old(self).live().insert(port@, id),
    {
        let id: u64 = self.issued;
        let ghost name = port@;
        self.rings_by_port.insert(port, id);
        self.live.insert(id);
        self.issued = self.issued + 1;
        assert(self.live() =~= old(self).live().insert(name, id));
        id
    }

    /// Registers a new ring under `port`, where its layout, or why there is none, is known
    /// already. A port that is refused is refused whatever the layout.
    pub fn register_laid_out(&mut self, port: String, layout: Result<Layout, Error>) -> (registration:
        Result<Registration, Error>)
        requires
            old(self).wf(),
            old(self).issued() < u64::MAX,
            layout matches Ok(layout) ==> layout.wf(),
        ensures
            final(self).wf(),
            registration is Ok <==> old(self).refusal(port@) is None && layout is Ok,
            registration is Ok <==> 0 < encode_utf8(port@).len() <= 255
                && !old(self).live().contains_key(port@) && layout is Ok,
            match registration {
                Ok(registration) => {
                    &&& registration.id == old(self).issued()
                    &&& registration.ring.fresh()
                    &&& registration.ring.readers.memory.spec_capacity() == layout->Ok_0.capacity
                    &&& registration.producer.state.capacity == layout->Ok_0.capacity
                    &&& registration.producer.state.write_position == 0
                    &&& registration.producer.state.survives_without_readers
                    &&& !registration.producer.state.readers.any()
                    &&& final(self).issued() == old(self).issued() + 1
                    &&& final(self).live() == old(self).live().insert(port@, registration.id)
                },
                Err(error) => {
                    &&& error == (match old(self).refusal(port@) {
                        Some(refusal) => refusal,
                        None => layout->Err_0,
                    })
                    &&& *final(self) == *old(self)
                },
            },
    {
        match self.prepare(port.as_str()) {
            Ok(()) => {},
            Err(error) => return Err(error),
        }
        let ring = match layout {
            Ok(layout) => RegisteredRing::with_layout(&layout),
            Err(error) => return Err(error),
        };
        let producer = Producer::registered(&ring);
        let id: u64 = self.commit(port);
        Ok(Registration { id, ring, producer })
    }

    /// Registers a new ring with at least `minimum_capacity` bytes under `port`.
    pub fn register_ring(&mut self, port: String, minimum_capacity: usize) -> (registration: Result<
        Registration,
        Error,
    >)
        requires
            old(self).wf(),
            old(self).issued() < u64::MAX,
        ensures
            final(self).wf(),
            old(self).refusal(port@) matches Some(error) ==> registration matches Err(e) && e
                == error,
            old(self).refusal(port@) is None ==> exists|page: usize|
                call_ensures(rustix::param::page_size, (), page)
                    && match #[trigger] layout_on_machine(minimum_capacity as int, page as int) {
                    Ok(layout) => registration is Ok
                        && registration->Ok_0.ring.readers.memory.spec_capacity()
                        == layout.capacity,
                    Err(error) => registration matches Err(e) && e == error,
                },
            match registration {
                Ok(registration) => {
                    &&& registration.id == old(self).issued()
                    &&& registration.ring.fresh()
                    &&& minimum_capacity <= registration.ring.readers.memory.spec_capacity()
                    &&& registration.producer.state.capacity
                        == registration.ring.readers.memory.spec_capacity()
                    &&& registration.producer.state.write_position == 0
                    &&& registration.producer.state.survives_without_readers
                    &&& !registration.producer.state.readers.any()
                    &&& final(self).issued() == old(self).issued() + 1
                    &&& final(self).live() == old(self).live().insert(port@, registration.id)
                },
                Err(error) => *final(self) == *old(self),
            },
    {
        let layout = Layout::for_minimum_capacity(minimum_capacity);
        self.register_laid_out(port, layout)
    }

    /// Retires the ring known by `id`.
    pub fn retire(&mut self, id: u64)
        requires
            old(self).wf(),
        ensures
            final(self).wf(),
            final(self).issued() == old(self).issued(),
            final(self).live() == old(self).live().restrict(
                Set::new(
                    |port: Seq<char>|
                        old(self).live().contains_key(port) && old(self).live()[port] != id,
                ),
            ),
    {
        self.live.remove(&id);
        assert(self.live() =~= old(self).live().restrict(
            Set::new(
                |port: Seq<char>|
                    old(self).live().contains_key(port) && old(self).live()[port] != id,
            ),
        ));
    }
}

/// Registers rings while the listener is alive.
pub struct Server {
    /// The rings of the listener, as long as there is one.
    pub registry: Option<ServerRegistry>,
}

impl Server {
    /// Creates a ring buffer named `port` with at least `minimum_capacity` bytes.
    pub fn register(&mut self, port: String, minimum_capacity: usize) -> (registration: Result<
        Registration,
        Error,
    >)
        requires
            old(self).registry matches Some(registry) ==> registry.wf() && registry.issued()
                < u64::MAX,
        ensures
            match old(self).registry {
                None => {
                    &&& registration matches Err(error) && error == Error::PeerDisconnected
                    &&& *final(self) == *old(self)
                },
                Some(before) => {
                    &&& final(self).registry is Some
                    &&& final(self).registry->0.wf()
                    &&& before.refusal(port@) matches Some(error) ==> registration matches Err(e)
                        && e == error
                    &&& before.refusal(port@) is None ==> exists|page: usize|
                        call_ensures(rustix::param::page_size, (), page)
                            && match #[trigger] layout_on_machine(
                            minimum_capacity as int,
                            page as int,
                        ) {
                            Ok(layout) => registration is Ok
                                && registration->Ok_0.ring.readers.memory.spec_capacity()
                                == layout.capacity,
                            Err(error) => registration matches Err(e) && e == error,
                        }
                    &&& match registration {
                        Ok(registration) => {
                            &&& registration.id == before.issued()
                            &&& registration.ring.fresh()
                            &&& minimum_capacity
                                <= registration.ring.readers.memory.spec_capacity()
                            &&& registration.producer.state.capacity
                                == registration.ring.readers.memory.spec_capacity()
                            &&& registration.producer.state.write_position == 0
                            &&& registration.producer.state.survives_without_readers
                            &&& !registration.producer.state.readers.any()
                            &&& final(self).registry->0.issued() == before.issued() + 1
                            &&& final(self).registry->0.live() == before.live().insert(
                                port@,
                                registration.id,
                            )
                        },
                        Err(_) => final(self).registry == old(self).registry,
                    }
                },
            },
    {
        match &mut self.registry {
            Some(registry) => registry.register_ring(port, minimum_capacity),
            None => Err(peer_disconnected()),
        }
    }
}

/// A registered port leads to its ring until the ring is retired, is refused to any other
/// ring in the meantime, and is free again afterwards. No other port is affected.
pub proof fn law_ports_route(
    before: ServerRegistry,
    port: Seq<char>,
    registered: ServerRegistry,
    retired: ServerRegistry,
    other: Seq<char>,
)
    requires
        before.wf(),
        before.refusal(port) is None,
        before.issued() <= u64::MAX,
        registered.live() == before.live().insert(port, before.issued() as u64),
        retired.live() == registered.live().restrict(
            Set::new(
                |name: Seq<char>|
                    registered.live().contains_key(name) && registered.live()[name]
                        != before.issued() as u64,
            ),
        ),
        other != port,
    ensures
        registered.live().contains_key(port),
        registered.live()[port] == before.issued(),
        registered.refusal(port) == Some(Error::Bare(ErrorKind::AlreadyExists)),
        registered.live().contains_key(other) <==> before.live().contains_key(other),
        before.live().contains_key(other) ==> registered.live()[other] == before.live()[other],
        retired.live() == before.live(),
        retired.refusal(port) is None,
{
    before.lemma_ports_are_apart();
    assert(retired.live() =~= before.live());
}

/// A port may be registered exactly where it has between 1 and 255 UTF-8 bytes and no live ring.
/// A valid one that is refused has one, and an invalid one is refused whether it has one or not.
pub proof fn law_free_ports_may_be_registered(registry: ServerRegistry, port: Seq<char>)
    ensures
        registry.refusal(port) is None <==> 0 < encode_utf8(port).len() <= 255
            && !registry.live().contains_key(port),
        0 < encode_utf8(port).len() <= 255 && registry.live().contains_key(port)
            ==> registry.refusal(port) == Some(Error::Bare(ErrorKind::AlreadyExists)),
        encode_utf8(port).len() == 0 ==> registry.refusal(port) == Some(
            Error::InvalidInput("port must not be empty"),
        ),
        encode_utf8(port).len() > 255 ==> registry.refusal(port) == Some(
            Error::InvalidInput("port must be at most 255 UTF-8 bytes"),
        ),
{
    law_ports_are_valid_by_their_length(port);
}

/// Every port that a server registers a client can ask for, and the server then routes it by the
/// very name: the two agree on which names there are.
pub proof fn law_registered_ports_can_be_asked_for(registry: ServerRegistry, port: Seq<char>)
    requires
        registry.refusal(port) is None || registry.refusal(port) == Some(
            Error::Bare(ErrorKind::AlreadyExists),
        ),
    ensures
        port_fault(port) is None,
        crate::handshake::protocol::request_answer(
            crate::handshake::protocol::request_bytes(port),
        ) == crate::handshake::protocol::RequestAnswer::Port(port),
{
    crate::handshake::protocol::law_requests_arrive(port);
}

} // verus!
