use vstd::prelude::*;

verus! {

/// The certificate a client presented, as the DER bytes of the first
/// certificate of its chain.
#[derive(Clone, Debug)]
pub struct PeerIdentity {
    pub der: Vec<u8>,
}

impl View for PeerIdentity {
    type V = Seq<u8>;

    open spec fn view(&self) -> Seq<u8> {
        self.der@
    }
}

pub open spec fn identity_view(p: Option<PeerIdentity>) -> Option<Seq<u8>> {
    match p {
        Some(id) => Some(id@),
        None => None,
    }
}

/// What a request learns of the connection it came on: the client's
/// identity, if it presented one, and the client's socket address.
#[derive(Clone, Debug)]
pub struct RequestContext {
    pub peer: Option<PeerIdentity>,
    pub remote: String,
}

impl View for RequestContext {
    type V = (Option<Seq<u8>>, Seq<char>);

    open spec fn view(&self) -> (Option<Seq<u8>>, Seq<char>) {
        (identity_view(self.peer), self.remote@)
    }
}

fn copy_bytes(v: &Vec<u8>) -> (r: Vec<u8>)
    ensures
        r@ == v@,
{
    let mut r: Vec<u8> = Vec::new();
    let mut i: usize = 0;
    while i < v.len()
        invariant
            i <= v@.len(),
            r@ == v@.subrange(0, i as int),
        decreases v@.len() - i,
    {
        r.push(v[i]);
        i = i + 1;
        assert(r@ =~= v@.subrange(0, i as int));
    }
    assert(v@.subrange(0, v@.len() as int) =~= v@);
    r
}

fn copy_identity(p: &Option<PeerIdentity>) -> (r: Option<PeerIdentity>)
    ensures
        identity_view(r) == identity_view(*p),
{
    match p {
        Some(id) => Some(PeerIdentity { der: copy_bytes(&id.der) }),
        None => None,
    }
}

/// Where a connection stands in its TLS handshake.
#[derive(PartialEq, Eq, Structural, Clone, Copy, Debug)]
pub enum ConnectionPhase {
    /// The socket was accepted; the handshake has not begun.
    Accepted,
    Handshaking,
    /// The handshake succeeded; requests may be read.
    Established,
    /// The handshake failed; the connection is dropped.
    Failed,
}

/// A certificate chain as the handshake handed it over, as bytes.
pub open spec fn chain_view(chain: Option<Vec<Vec<u8>>>) -> Option<Seq<Seq<u8>>> {
    match chain {
        Some(c) => Some(c.deep_view()),
        None => None,
    }
}

/// The identity a presented chain stands for: its first certificate, and
/// none where no certificate, or an empty chain, was presented.
pub open spec fn identity_of_chain(chain: Option<Seq<Seq<u8>>>) -> Option<Seq<u8>> {
    match chain {
        Some(c) => if c.len() > 0 {
            Some(c[0])
        } else {
            None
        },
        None => None,
    }
}

pub struct ConnectionView {
    pub phase: ConnectionPhase,
    pub remote: Seq<char>,
    /// The chain presented in this connection's handshake, once it succeeded.
    pub presented: Option<Seq<Seq<u8>>>,
}

/// The context that every request on a connection carries: present only once
/// the handshake succeeded, and then built from this connection alone.
pub open spec fn context_of(c: ConnectionView) -> Option<(Option<Seq<u8>>, Seq<char>)> {
    if c.phase == ConnectionPhase::Established {
        Some((identity_of_chain(c.presented), c.remote))
    } else {
        None
    }
}

/// What the handshake reports about a connection.
pub enum HandshakeEvent {
    Begin,
    /// The handshake succeeded with this chain (`None`: no certificate).
    Completed(Option<Seq<Seq<u8>>>),
    Failed,
}

/// A connection after one handshake report: only a freshly accepted
/// connection begins a handshake, and only a running handshake completes
/// or fails; any other report changes nothing.
pub open spec fn connection_next(c: ConnectionView, e: HandshakeEvent) -> ConnectionView {
    match e {
        HandshakeEvent::Begin => if c.phase == ConnectionPhase::Accepted {
            ConnectionView { phase: ConnectionPhase::Handshaking, ..c }
        } else {
            c
        },
        HandshakeEvent::Completed(chain) => if c.phase == ConnectionPhase::Handshaking {
            ConnectionView { phase: ConnectionPhase::Established, presented: chain, ..c }
        } else {
            c
        },
        HandshakeEvent::Failed => if c.phase == ConnectionPhase::Handshaking {
            ConnectionView { phase: ConnectionPhase::Failed, ..c }
        } else {
            c
        },
    }
}

pub open spec fn connection_run(c: ConnectionView, events: Seq<HandshakeEvent>) -> ConnectionView
    decreases events.len(),
{
    if events.len() == 0 {
        c
    } else {
        connection_run(connection_next(c, events[0]), events.drop_first())
    }
}

/// One accepted connection: its socket address from the accept, and the
/// identity from its one handshake, shared by all requests on it.
pub struct Connection {
    phase: ConnectionPhase,
    remote: String,
    peer: Option<PeerIdentity>,
    presented: Ghost<Option<Seq<Seq<u8>>>>,
}

impl View for Connection {
    type V = ConnectionView;

    closed spec fn view(&self) -> ConnectionView {
        ConnectionView { phase: self.phase, remote: self.remote@, presented: self.presented@ }
    }
}

impl Connection {
    /// The identity held matches what was presented, and nothing is
    /// presented before the handshake succeeds.
    pub closed spec fn wf(&self) -> bool {
        &&& identity_view(self.peer) == identity_of_chain(self.presented@)
        &&& self.phase != ConnectionPhase::Established ==> self.presented@ is None
    }

    /// A connection just returned by the listening socket's accept.
    pub fn accepted(remote: String) -> (c: Connection)
        ensures
            c.wf(),
            c@ == (ConnectionView { phase: ConnectionPhase::Accepted, remote: remote@, presented: None }),
    {
        Connection { phase: ConnectionPhase::Accepted, remote, peer: None, presented: Ghost(None) }
    }

    pub fn phase(&self) -> (p: ConnectionPhase)
        ensures
            p == self@.phase,
    {
        self.phase
    }

    pub fn remote_address(&self) -> (r: &String)
        ensures
            r@ == self@.remote,
    {
        &self.remote
    }

    /// Begins the handshake of a freshly accepted connection; in any other
    /// phase nothing changes and `false` comes back.
    pub fn begin_handshake(&mut self) -> (started: bool)
        requires
            old(self).wf(),
        ensures
            final(self).wf(),
            started == (old(self)@.phase == ConnectionPhase::Accepted),
            final(self)@ == connection_next(old(self)@, HandshakeEvent::Begin),
    {
        if self.phase == ConnectionPhase::Accepted {
            self.phase = ConnectionPhase::Handshaking;
            true
        } else {
            false
        }
    }

    /// Records a successful handshake and the chain the client presented
    /// (`None` for an anonymous client); only during the handshake.
    pub fn handshake_completed(&mut self, presented: Option<Vec<Vec<u8>>>) -> (done: bool)
        requires
            old(self).wf(),
        ensures
            final(self).wf(),
            done == (old(self)@.phase == ConnectionPhase::Handshaking),
            final(self)@ == connection_next(old(self)@, HandshakeEvent::Completed(chain_view(presented))),
    {
        if self.phase != ConnectionPhase::Handshaking {
            return false;
        }
        let ghost chain = chain_view(presented);
        let peer = match presented {
            Some(mut certs) => {
                if certs.len() == 0 {
                    None
                } else {
                    let ghost certs_view = certs.deep_view();
                    let first = certs.swap_remove(0);
                    assert(first@ == certs_view[0]);
                    Some(PeerIdentity { der: first })
                }
            },
            None => None,
        };
        self.phase = ConnectionPhase::Established;
        self.peer = peer;
        self.presented = Ghost(chain);
        true
    }

    /// Records a failed handshake; only during the handshake.
    pub fn handshake_failed(&mut self) -> (done: bool)
        requires
            old(self).wf(),
        ensures
            final(self).wf(),
            done == (old(self)@.phase == ConnectionPhase::Handshaking),
            final(self)@ == connection_next(old(self)@, HandshakeEvent::Failed),
    {
        if self.phase == ConnectionPhase::Handshaking {
            self.phase = ConnectionPhase::Failed;
            true
        } else {
            false
        }
    }

    /// The context for one more request read off this connection.
    pub fn request_context(&self) -> (r: Option<RequestContext>)
        requires
            self.wf(),
        ensures
            r is Some <==> context_of(self@) is Some,
            r matches Some(ctx) ==> context_of(self@) == Some(ctx@),
    {
        if self.phase == ConnectionPhase::Established {
            Some(RequestContext { peer: copy_identity(&self.peer), remote: self.remote.clone() })
        } else {
            None
        }
    }
}

proof fn lemma_established_comes_from_a_completion(c: ConnectionView, events: Seq<HandshakeEvent>)
    ensures
        connection_run(c, events).remote == c.remote,
        connection_run(c, events).phase == ConnectionPhase::Established ==> {
            ||| connection_run(c, events) == c
            ||| exists|i: int| 0 <= i < events.len()
                && #[trigger] events[i] == HandshakeEvent::Completed(connection_run(c, events).presented)
        },
    decreases events.len(),
{
    if events.len() > 0 {
        let next = connection_next(c, events[0]);
        let rest = events.drop_first();
        lemma_established_comes_from_a_completion(next, rest);
        let last = connection_run(c, events);
        assert(last == connection_run(next, rest));
        if last.phase == ConnectionPhase::Established && last != c {
            if last == next {
                assert(events[0] == HandshakeEvent::Completed(last.presented));
            } else {
                let j = choose|j: int| 0 <= j < rest.len() && #[trigger] rest[j] == HandshakeEvent::Completed(last.presented);
                assert(events[j + 1] == rest[j]);
            }
        }
    }
}

/// Connection isolation: whatever the handshake reports about a connection,
/// a request on it gets a context only once the handshake succeeded; the
/// context carries the socket address the connection was accepted with, and
/// the identity is the first certificate of a chain that this connection's
/// own handshake reported (absent where it reported none).
pub proof fn lemma_request_identity_is_own_handshake(remote: Seq<char>, events: Seq<HandshakeEvent>)
    ensures
        ({
            let last = connection_run(
                ConnectionView { phase: ConnectionPhase::Accepted, remote, presented: None },
                events,
            );
            context_of(last) matches Some(ctx) ==> {
                &&& ctx.1 == remote
                &&& ctx.0 == identity_of_chain(last.presented)
                &&& exists|i: int| 0 <= i < events.len()
                    && #[trigger] events[i] == HandshakeEvent::Completed(last.presented)
            }
        }),
{
    let start = ConnectionView { phase: ConnectionPhase::Accepted, remote, presented: None };
    lemma_established_comes_from_a_completion(start, events);
}

/// Once a connection's handshake has succeeded, later handshake reports
/// change nothing: every request on it sees the same context.
pub proof fn lemma_established_connection_is_fixed(c: ConnectionView, events: Seq<HandshakeEvent>)
    requires
        c.phase == ConnectionPhase::Established,
    ensures
        connection_run(c, events) == c,
    decreases events.len(),
{
    if events.len() > 0 {
        lemma_established_connection_is_fixed(c, events.drop_first());
    }
}

} // verus!
