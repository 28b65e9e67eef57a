//! The connection registry: a directory mapping node identifier to its
//! link supervisor. It is bootstrapped with one supervisor per stored node
//! and exposes connect, disconnect and is-connected to callers; replaced
//! supervisors are always torn down first, so at most one supervisor — and
//! through its invariant at most one live socket — exists per node.

use std::collections::HashMap;

use vstd::prelude::*;
use vstd::string::StringExecFns;

use crate::hexfmt::{dec_of_int, dec_string_of_i64};
use crate::envelope::{encoded, WingsMessage};
use crate::link::{step_spec, LinkError, LinkEvent, StepActions, WingsConnection};

verus! {

broadcast use vstd::std_specs::hash::group_hash_axioms;

/// An immutable snapshot of a node's endpoint, as the node store supplies
/// it: the stable identifier (a UUID carried as its 128-bit value), the
/// host, port and scheme of the agent, and the shared secret of the
/// signature protocol.
pub struct NodeEndpoint {
    pub id: u128,
    pub host: String,
    pub port: i16,
    pub secure: bool,
    pub token: String,
}

/// The connection URL derived from an endpoint: `{ws|wss}://host:port/api`.
pub open spec fn url_of(host: Seq<char>, port: int, secure: bool) -> Seq<char> {
    (if secure {
        "wss"@
    } else {
        "ws"@
    }) + "://"@ + host + ":"@ + dec_of_int(port) + "/api"@
}

/// Builds the connection URL for a node.
pub fn endpoint_url(host: &str, port: i16, secure: bool) -> (r: String)
    ensures
        r@ == url_of(host@, port as int, secure),
{
    let mut s = String::new();
    if secure {
        s.append("wss");
    } else {
        s.append("ws");
    }
    s.append("://");
    s.append(host);
    s.append(":");
    let port_str = dec_string_of_i64(port as i64);
    s.append(port_str.as_str());
    s.append("/api");
    s
}

/// A link supervisor as the registry creates it for an endpoint: freshly
/// constructed against the endpoint's URL and token, not yet connected.
pub open spec fn fresh_link_for(link: WingsConnection, host: Seq<char>, port: int, secure: bool, token: Seq<char>) -> bool {
    &&& link.url@ == url_of(host, port, secure)
    &&& link.token@ == token
    &&& link.phase is Waiting
    &&& !link.connected
    &&& !link.receiver_active
}

/// Whether the registry map reports a node as connected: the id is known
/// and its supervisor holds a send half.
pub open spec fn connected_in(m: Map<u128, WingsConnection>, id: u128) -> bool {
    m.contains_key(id) && m[id].connected
}

/// The registry of link supervisors, one per node.
pub struct Wings {
    wings: HashMap<u128, WingsConnection>,
}

impl View for Wings {
    type V = Map<u128, WingsConnection>;

    closed spec fn view(&self) -> Map<u128, WingsConnection> {
        self.wings@
    }
}

impl Wings {
    /// Every supervisor held by the registry satisfies its invariant.
    pub open spec fn wf(&self) -> bool {
        forall|k: u128| self@.contains_key(k) ==> (#[trigger] self@[k]).wf()
    }

    /// Builds the registry from the stored node endpoints: one fresh
    /// supervisor per node. A node that is unreachable still gets its
    /// supervisor — connection attempts happen later, driven by events —
    /// so construction never fails merely because a node is offline.
    pub fn new(endpoints: &Vec<NodeEndpoint>) -> (r: Wings)
        ensures
            r.wf(),
            forall|i: int|
                0 <= i < endpoints@.len() ==> r@.contains_key(#[trigger] endpoints@[i].id),
            forall|k: u128| #[trigger]
                r@.contains_key(k) ==> exists|i: int|
                    0 <= i < endpoints@.len() && endpoints@[i].id == k && fresh_link_for(
                        r@[k],
                        #[trigger] endpoints@[i].host@,
                        endpoints@[i].port as int,
                        endpoints@[i].secure,
                        endpoints@[i].token@,
                    ),
    {
        let mut wings: HashMap<u128, WingsConnection> = HashMap::new();
        let mut i: usize = 0;
        while i < endpoints.len()
            invariant
                i <= endpoints@.len(),
                forall|j: int| 0 <= j < i ==> wings@.contains_key(#[trigger] endpoints@[j].id),
                forall|k: u128| #[trigger]
                    wings@.contains_key(k) ==> exists|j: int|
                        0 <= j < i && endpoints@[j].id == k && fresh_link_for(
                            wings@[k],
                            #[trigger] endpoints@[j].host@,
                            endpoints@[j].port as int,
                            endpoints@[j].secure,
                            endpoints@[j].token@,
                        ),
            decreases endpoints@.len() - i,
        {
            let ep = &endpoints[i];
            let url = endpoint_url(ep.host.as_str(), ep.port, ep.secure);
            let conn = WingsConnection::new(url, ep.token.clone());
            wings.insert(ep.id, conn);
            i = i + 1;
        }
        Wings { wings }
    }

    /// Creates — or replaces, tearing down any prior one — the supervisor
    /// for a node. Used when a node is added or its endpoint is edited.
    /// Other nodes' supervisors are untouched.
    pub fn connect(&mut self, id: u128, host: &str, port: i16, secure: bool, token: &str) -> (r:
        Result<(), LinkError>)
        requires
            old(self).wf(),
        ensures
            r is Ok,
            final(self).wf(),
            final(self)@.contains_key(id),
            fresh_link_for(final(self)@[id], host@, port as int, secure, token@),
            forall|k: u128|
                k != id ==> final(self)@.contains_key(k) == old(self)@.contains_key(k),
            forall|k: u128|
                k != id && old(self)@.contains_key(k) ==> final(self)@[k] == old(self)@[k],
    {
        let url = endpoint_url(host, port, secure);
        let conn = WingsConnection::new(url, String::from_str(token));
        if let Some(mut prior) = self.wings.remove(&id) {
            proof {
                assert(old(self)@.contains_key(id) && old(self)@[id] == prior);
            }
            // The replaced supervisor is stopped so its socket and tasks
            // cannot outlive it.
            prior.disconnect();
        }
        self.wings.insert(id, conn);
        Ok(())
    }

    /// Removes and tears down the supervisor for a node; a no-op when the
    /// id is unknown, so repeated calls all succeed.
    pub fn disconnect(&mut self, id: u128) -> (r: Result<(), LinkError>)
        requires
            old(self).wf(),
        ensures
            r is Ok,
            final(self).wf(),
            final(self)@ == old(self)@.remove(id),
            !connected_in(final(self)@, id),
    {
        if let Some(mut conn) = self.wings.remove(&id) {
            proof {
                assert(old(self)@.contains_key(id) && old(self)@[id] == conn);
            }
            conn.disconnect();
        }
        proof {
            assert(self@ =~= old(self)@.remove(id));
        }
        Ok(())
    }

    /// False when the id is unknown or its supervisor reports no socket.
    pub fn is_connected(&self, id: u128) -> (r: bool)
        ensures
            r == connected_in(self@, id),
    {
        match self.wings.get(&id) {
            Some(conn) => conn.is_connected(),
            None => false,
        }
    }

    /// Serializes a message for a node's current socket: the frame to write
    /// on its send half. Fails immediately when the id is unknown or its
    /// link holds no socket.
    pub fn send_to(&self, id: u128, msg: &WingsMessage) -> (r: Result<Vec<u8>, LinkError>)
        ensures
            match r {
                Ok(frame) => connected_in(self@, id) && frame@ == encoded(*msg),
                Err(e) => !connected_in(self@, id) && e == LinkError::NotConnected,
            },
    {
        match self.wings.get(&id) {
            Some(conn) => conn.send(msg),
            None => Err(LinkError::NotConnected),
        }
    }

    /// Delivers one event to a node's supervisor and returns the actions
    /// its loop must perform; `None` when the id is unknown. Operations on
    /// one node never touch another's supervisor.
    pub fn step_node(&mut self, id: u128, event: &LinkEvent) -> (r: Option<StepActions>)
        requires
            old(self).wf(),
        ensures
            final(self).wf(),
            match r {
                Some(a) => old(self)@.contains_key(id) && (final(self)@[id], a) == step_spec(
                    old(self)@[id],
                    *event,
                ) && final(self)@ == old(self)@.insert(id, final(self)@[id]),
                None => !old(self)@.contains_key(id) && final(self)@ == old(self)@,
            },
    {
        match self.wings.remove(&id) {
            Some(mut conn) => {
                proof {
                    assert(old(self)@.contains_key(id) && old(self)@[id] == conn);
                }
                let a = conn.step(event);
                self.wings.insert(id, conn);
                proof {
                    assert(self@ =~= old(self)@.insert(id, self@[id]));
                }
                Some(a)
            },
            None => {
                proof {
                    assert(self@ =~= old(self)@);
                }
                None
            },
        }
    }
}

/// Two consecutive disconnects on one id both succeed: removing an id is
/// idempotent on the registry, and from the instant the first returns the
/// id reports disconnected, so a send for it is refused.
pub proof fn lemma_disconnect_idempotent(m: Map<u128, WingsConnection>, id: u128)
    ensures
        m.remove(id).remove(id) =~= m.remove(id),
        !connected_in(m.remove(id), id),
{
}

/// For any interleaving of connect and disconnect on one node id, the
/// registry's answer settles with the last operation: after a disconnect
/// the id reports disconnected, and events processed by other nodes' links
/// never change the answer for this one.
pub proof fn lemma_is_connected_converges(
    m: Map<u128, WingsConnection>,
    id: u128,
    other: u128,
    e: LinkEvent,
)
    requires
        other != id,
        m.contains_key(other),
    ensures
        !connected_in(m.remove(id), id),
        connected_in(m.insert(other, step_spec(m[other], e).0), id) == connected_in(m, id),
{
}

} // verus!
