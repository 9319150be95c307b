use vstd::prelude::*;

verus! {

/// Length of the frame a player sends on the control port to ask for a session port.
pub const HANDSHAKE_LEN: usize = 19;

/// What a frame on the control port asks for.
#[derive(Debug, Clone, Copy, PartialEq, Eq, Structural)]
pub enum Event {
    /// The library query: a length-prefixed "RemoteDBServer".
    RemoteDBServer,
    Unsupported,
}

/// The library query a player sends on the control port.
pub open spec fn library_query() -> Seq<u8> {
    seq![
        0u8, 0u8, 0u8, 15u8, 0x52u8, 0x65u8, 0x6du8, 0x6fu8, 0x74u8, 0x65u8, 0x44u8, 0x42u8,
        0x53u8, 0x65u8, 0x72u8, 0x76u8, 0x65u8, 0x72u8, 0u8,
    ]
}

/// Recognises the library query.
pub fn get_package_type(buffer: &[u8]) -> (r: Event)
    ensures
        r == Event::RemoteDBServer <==> buffer@ == library_query(),
{
    let query: [u8; 19] = [
        0, 0, 0, 15, 0x52, 0x65, 0x6d, 0x6f, 0x74, 0x65, 0x44, 0x42, 0x53, 0x65, 0x72, 0x76, 0x65,
        0x72, 0,
    ];
    assert(query@ =~= library_query());
    if buffer.len() != HANDSHAKE_LEN {
        return Event::Unsupported;
    }
    let mut i: usize = 0;
    while i < HANDSHAKE_LEN
        invariant
            buffer@.len() == 19,
            query@ == library_query(),
            i <= 19,
            forall|k: int| 0 <= k < i ==> buffer@[k] == query@[k],
        decreases 19 - i,
    {
        if buffer[i] != query[i] {
            return Event::Unsupported;
        }
        i = i + 1;
    }
    assert(buffer@ =~= library_query());
    Event::RemoteDBServer
}

/// Big-endian bytes of a port number.
pub open spec fn port_bytes(port: u16) -> Seq<u8> {
    seq![(port / 256) as u8, (port % 256) as u8]
}

/// The two bytes that tell a player its session port.
pub fn convert_u16_to_two_u8s_be(value: u16) -> (r: Vec<u8>)
    ensures
        r@ == port_bytes(value),
{
    let r = vec![(value / 256) as u8, (value % 256) as u8];
    assert(r@ =~= port_bytes(value));
    r
}

/// The ports handed out to players for their sessions. The pool never holds
/// a port twice, so each port is handed out at most once.
pub struct PortPool {
    ports: Vec<u16>,
}

impl View for PortPool {
    type V = Seq<u16>;

    closed spec fn view(&self) -> Seq<u16> {
        self.ports@
    }
}

impl PortPool {
    #[verifier::type_invariant]
    spec fn distinct(self) -> bool {
        self.ports@.no_duplicates()
    }

    /// The four session ports, handed out from the last.
    pub fn new() -> (r: PortPool)
        ensures
            r@ == seq![65312u16, 65313u16, 65314u16, 65315u16],
            r@.no_duplicates(),
    {
        let ports = vec![65312, 65313, 65314, 65315];
        assert(ports@ =~= seq![65312u16, 65313u16, 65314u16, 65315u16]);
        PortPool { ports }
    }

    /// Ports not handed out yet.
    pub fn available(&self) -> (r: usize)
        ensures
            r == self@.len(),
    {
        self.ports.len()
    }

    /// Takes the next port out of the pool; `None` once the pool is empty.
    /// A port taken is never in the pool again.
    pub fn allocate(&mut self) -> (r: Option<u16>)
        ensures
            old(self)@.len() == 0 ==> r is None && final(self)@ == old(self)@,
            old(self)@.len() > 0 ==> r == Some(old(self)@.last()) && final(self)@ == old(self)@.drop_last(),
            r matches Some(p) ==> !final(self)@.contains(p),
            final(self)@.no_duplicates(),
    {
        proof {
            use_type_invariant(&*self);
        }
        let ghost before = self.ports@;
        let mut ports: Vec<u16> = Vec::new();
        std::mem::swap(&mut ports, &mut self.ports);
        let r = ports.pop();
        proof {
            if before.len() > 0 {
                assert(before.drop_last() == ports@);
                assert forall|i: int, j: int| 0 <= i < j < ports@.len() implies ports@[i] != ports@[j] by {
                    assert(ports@[i] == before[i]);
                    assert(ports@[j] == before[j]);
                }
                assert forall|i: int| 0 <= i < ports@.len() implies ports@[i] != before.last() by {
                    assert(ports@[i] == before[i]);
                }
            }
        }
        self.ports = ports;
        r
    }
}

/// Two successive allocations from a pool of distinct ports give distinct ports.
pub proof fn lemma_successive_ports_distinct(pool: Seq<u16>)
    requires
        pool.no_duplicates(),
        pool.len() >= 2,
    ensures
        pool.last() != pool.drop_last().last(),
{
    assert(pool.drop_last().last() == pool[pool.len() - 2]);
}

/// Why a handshake on the control port cannot be completed.
#[derive(Debug, Clone, Copy, PartialEq, Eq, Structural)]
pub enum HandshakeError {
    /// The frame is not the fixed length.
    IncompleteFrame,
    /// No session port is left.
    PortPoolExhausted,
}

/// Answers a frame on the control port: the session port handed to the
/// player and the two bytes to send back.
pub fn handshake(frame: &[u8], pool: &mut PortPool) -> (r: Result<(u16, Vec<u8>), HandshakeError>)
    ensures
        final(pool)@.no_duplicates(),
        frame@.len() != 19 ==> (r matches Err(e) && e == HandshakeError::IncompleteFrame)
            && final(pool)@ == old(pool)@,
        frame@.len() == 19 && old(pool)@.len() == 0 ==> (r matches Err(e) && e
            == HandshakeError::PortPoolExhausted) && final(pool)@ == old(pool)@,
        frame@.len() == 19 && old(pool)@.len() > 0 ==> (r matches Ok((port, reply)) && port == old(
            pool,
        )@.last() && old(pool)@.contains(port) && !final(pool)@.contains(port) && reply@ == port_bytes(
            port,
        )) && final(pool)@ == old(pool)@.drop_last(),
{
    proof {
        use_type_invariant(&*pool);
    }
    if frame.len() != HANDSHAKE_LEN {
        return Err(HandshakeError::IncompleteFrame);
    }
    match pool.allocate() {
        Some(port) => {
            let ghost before = old(pool)@;
            assert(before[before.len() - 1] == port);
            Ok((port, convert_u16_to_two_u8s_be(port)))
        },
        None => Err(HandshakeError::PortPoolExhausted),
    }
}

} // verus!
