//! The relay's two endpoints and the orchestrator that builds them.
//!
//! A `Server` owns the inbound listening address and the service map and
//! answers the handshake as responder. A `Client` owns one outbound tunnel:
//! it listens locally and runs the handshake as initiator against a remote
//! proxy. A `Proxy` builds one `Server` and one `Client` per outbound entry
//! from a topology, without starting any of them; the accept loops, dials and
//! socket copies that drive these endpoints are I/O and live outside the
//! library.

use vstd::prelude::*;
use crate::config::ProxyConfig;
use crate::handshake::RoutedRequest;
use crate::handshake::accepts;
use crate::handshake::route_request;
use crate::namemap::NameMap;
use vstd::utf8::decode_utf8;

verus! {

/// One outbound tunnel endpoint: for each connection accepted on
/// `local_address`, dial `proxy_address` and request `name` there.
pub struct Client {
    pub name: String,
    pub local_address: String,
    pub proxy_address: String,
}

impl Client {
    /// Constructs an immutable tunnel endpoint.
    pub fn new(name: &str, local_address: &str, proxy_address: &str) -> (r: Self)
        ensures
            r.name@ == name@,
            r.local_address@ == local_address@,
            r.proxy_address@ == proxy_address@,
    {
        Client {
            name: name.to_owned(),
            local_address: local_address.to_owned(),
            proxy_address: proxy_address.to_owned(),
        }
    }
}

/// The inbound router: owns the listening address and the map from service
/// name to backend address, and makes the routing decision for every
/// connection accepted there.
pub struct Server {
    addr: String,
    incomming: NameMap<String>,
}

impl Server {
    /// The listening address.
    pub closed spec fn spec_addr(self) -> Seq<char> {
        self.addr@
    }

    /// The service map.
    pub closed spec fn spec_services(self) -> Map<Seq<char>, Seq<char>> {
        self.incomming@
    }

    /// The service map binds each name at most once.
    pub closed spec fn wf(self) -> bool {
        self.incomming.wf()
    }

    /// Constructs an immutable router from a listening address and a service
    /// map.
    pub fn new(addr: &str, incomming: NameMap<String>) -> (r: Self)
        requires
            incomming.wf(),
        ensures
            r.wf(),
            r.spec_addr() == addr@,
            r.spec_services() == incomming@,
    {
        Server { addr: addr.to_owned(), incomming }
    }

    /// The address to bind the accept loop to.
    pub fn addr(&self) -> (r: &String)
        ensures
            r@ == self.spec_addr(),
    {
        &self.addr
    }

    /// The responder's routing decision for one request name read from an
    /// accepted connection: the backend address to dial and the acknowledgment
    /// frame to write back once the dial succeeds, exactly when the map holds
    /// the name; anything else closes the connection with no reply.
    pub fn route(&self, name: &[u8]) -> (r: Option<RoutedRequest>)
        requires
            self.wf(),
        ensures
            r is Some <==> accepts(self.spec_services(), name@),
            r matches Some(routed) ==> ({
                &&& routed.backend_address@ == self.spec_services()[decode_utf8(name@)]
                &&& routed.ack@ == crate::frame::spec_frame(name@)
            }),
    {
        route_request(&self.incomming, name)
    }
}

/// The orchestrator's product: one inbound router and one outbound tunnel
/// endpoint per outbound topology entry, built but not started.
pub struct Proxy {
    server: Server,
    clients: Vec<Client>,
}

impl Proxy {
    /// The inbound router's state.
    pub closed spec fn spec_server(self) -> Server {
        self.server
    }

    /// The tunnel endpoints, in the topology's order.
    pub closed spec fn spec_clients(self) -> Seq<Client> {
        self.clients@
    }

    /// Builds exactly one router from the topology's inbound side and one
    /// tunnel endpoint per outbound entry, starting none of them.
    pub fn build(config: ProxyConfig) -> (r: Self)
        requires
            config.wf(),
        ensures
            r.spec_server().wf(),
            r.spec_server().spec_addr() == config.incomming.address@,
            r.spec_server().spec_services() == config.incomming.services@,
            r.spec_clients().len() == config.outgoing.entries_view().len(),
            forall|i: int|
                0 <= i < r.spec_clients().len() ==> {
                    let entry = #[trigger] config.outgoing.entries_view()[i];
                    &&& r.spec_clients()[i].name@ == entry.0
                    &&& r.spec_clients()[i].local_address@ == entry.1.0
                    &&& r.spec_clients()[i].proxy_address@ == entry.1.1
                },
    {
        let server = Server::new(config.incomming.address.as_str(), config.incomming.services);
        let mut clients: Vec<Client> = Vec::new();
        let n = config.outgoing.len();
        for i in 0..n
            invariant
                n == config.outgoing.entries_view().len(),
                config.outgoing.wf(),
                clients@.len() == i,
                forall|j: int|
                    0 <= j < i ==> {
                        let entry = #[trigger] config.outgoing.entries_view()[j];
                        &&& clients@[j].name@ == entry.0
                        &&& clients@[j].local_address@ == entry.1.0
                        &&& clients@[j].proxy_address@ == entry.1.1
                    },
        {
            let entry = config.outgoing.entry_at(i);
            clients.push(
                Client::new(
                    entry.0.as_str(),
                    entry.1.local_address.as_str(),
                    entry.1.proxy_address.as_str(),
                ),
            );
        }
        Proxy { server, clients }
    }

    /// The inbound router to start.
    pub fn server(&self) -> (r: &Server)
        ensures
            *r == self.spec_server(),
    {
        &self.server
    }

    /// The tunnel endpoints to start.
    pub fn clients(&self) -> (r: &Vec<Client>)
        ensures
            r@ == self.spec_clients(),
    {
        &self.clients
    }
}

} // verus!
