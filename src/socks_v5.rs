use vstd::prelude::*;
use crate::proxy::{encodable, Credential, NetAddress, ATYP_DOMAIN, ATYP_IPV4, ATYP_IPV6};
use crate::wire::{connect_request, request_bytes, PROXY_VERSION};

verus! {

/// Method code: no authentication.
pub const NO_AUTH: u8 = 0;

/// Method code: username and password.
pub const PASSWORD_AUTH: u8 = 2;

/// The IP address of a proxy.
#[derive(Debug, Clone, Copy)]
pub enum IpAddress {
    V4([u8; 4]),
    V6([u8; 16]),
}

/// Why a connection through the proxy could not be established.
#[derive(Debug, Clone, Copy, PartialEq, Eq, Structural)]
pub enum ConnectError {
    /// The connection to the proxy could not be opened or used.
    TransportUnavailable,
    /// The proxy selected an authentication method that the client cannot perform.
    UnsupportedAuthMethod,
    /// The domain name does not fit its one-byte length prefix.
    AddressTooLong,
    /// The proxy reported a general failure.
    ProxyGeneralFailure,
    /// The proxy reported the network unreachable.
    NetworkUnreachable,
    /// The proxy reported the host unreachable.
    HostUnreachable,
    /// The destination refused the proxy's connection.
    ConnectionRefusedByDestination,
    /// The proxy replied with a status this client does not know.
    UnknownProxyStatus,
    /// The proxy's reply announced an address type this client does not know.
    UnknownAddressType,
}

/// The greeting: version, method count, then the methods offered. "No
/// authentication" is always offered; "username/password" only with a credential.
pub open spec fn greeting_for(has_credential: bool) -> Seq<u8> {
    if has_credential {
        seq![PROXY_VERSION, 2u8, NO_AUTH, PASSWORD_AUTH]
    } else {
        seq![PROXY_VERSION, 1u8, NO_AUTH]
    }
}

/// A proxy client configuration: where the proxy is, the credential if any,
/// and the greeting computed once from it.
#[derive(Debug)]
pub struct SocksV5 {
    address: IpAddress,
    port: u16,
    credential: Option<Credential>,
    greeting_msg: Vec<u8>,
}

impl SocksV5 {
    /// The proxy's IP address.
    pub closed spec fn spec_address(&self) -> IpAddress {
        self.address
    }

    /// The proxy's port.
    pub closed spec fn spec_port(&self) -> u16 {
        self.port
    }

    /// The credential's username and password, if one was given.
    pub closed spec fn spec_credential(&self) -> Option<(Seq<char>, Seq<char>)> {
        match &self.credential {
            Some(c) => Some(c@),
            None => None,
        }
    }

    /// The greeting computed at construction.
    pub closed spec fn spec_greeting(&self) -> Seq<u8> {
        self.greeting_msg@
    }

    /// The configuration for the proxy at `address:port`.
    pub fn new(address: IpAddress, port: u16, credential: Option<Credential>) -> (r: SocksV5)
        ensures
            r.spec_address() == address,
            r.spec_port() == port,
            r.spec_credential() == (match credential {
                Some(c) => Some(c@),
                None => None::<(Seq<char>, Seq<char>)>,
            }),
            r.spec_greeting() == greeting_for(credential is Some),
    {
        let mut methods: Vec<u8> = vec![NO_AUTH];
        if credential.is_some() {
            methods.push(PASSWORD_AUTH);
        }
        let mut greeting_msg: Vec<u8> = vec![PROXY_VERSION, methods.len() as u8];
        let mut i: usize = 0;
        while i < methods.len()
            invariant
                i <= methods@.len() <= 2,
                greeting_msg@ == seq![PROXY_VERSION, methods@.len() as u8] + methods@.subrange(
                    0,
                    i as int,
                ),
            decreases methods@.len() - i,
        {
            greeting_msg.push(methods[i]);
            i = i + 1;
            assert(methods@.subrange(0, i as int) == methods@.subrange(0, i - 1) + seq![
                methods@[i - 1],
            ]);
        }
        assert(methods@.subrange(0, i as int) == methods@);
        assert(greeting_msg@ == greeting_for(credential is Some));
        SocksV5 { address, port, credential, greeting_msg }
    }

    /// The proxy's IP address.
    pub fn proxy_address(&self) -> (r: IpAddress)
        ensures
            r == self.spec_address(),
    {
        self.address
    }

    /// The proxy's port.
    pub fn proxy_port(&self) -> (r: u16)
        ensures
            r == self.spec_port(),
    {
        self.port
    }

    /// The greeting sent first on every connection to the proxy.
    pub fn greeting(&self) -> (r: &Vec<u8>)
        ensures
            r@ == self.spec_greeting(),
    {
        &self.greeting_msg
    }
}

/// Where a handshake stands.
#[derive(Debug, Clone, Copy, PartialEq, Eq, Structural)]
pub enum Phase {
    /// The transport to the proxy is open and nothing has been sent.
    Start,
    /// The greeting is sent; the two bytes of the method reply are awaited.
    AwaitMethod,
    /// The request is sent; the four bytes of the reply header are awaited.
    AwaitReplyHeader,
    /// The length byte of a domain-name bound address is awaited.
    AwaitDomainLength { status: u8 },
    /// The rest of the bound address and port is awaited, to be discarded.
    AwaitTrailer { status: u8, remaining: usize },
    /// The handshake has ended.
    Finished,
}

/// What the caller does next with the stream to the proxy.
#[derive(Debug)]
pub enum Action {
    /// Write `send` (nothing when it is empty), then read exactly `receive`
    /// bytes and hand them to [`Handshake::step`].
    Exchange { send: Vec<u8>, receive: usize },
    /// The proxy relays the stream to the destination: the next byte read is
    /// the destination's data.
    Established,
    /// The handshake failed; the stream must not be reused.
    Failed(ConnectError),
}

/// An [`Action`] with its bytes as a sequence.
pub enum ActionView {
    Exchange { send: Seq<u8>, receive: usize },
    Established,
    Failed(ConnectError),
}

impl View for Action {
    type V = ActionView;

    open spec fn view(&self) -> ActionView {
        match self {
            Action::Exchange { send, receive } => ActionView::Exchange { send: send@, receive: *receive },
            Action::Established => ActionView::Established,
            Action::Failed(e) => ActionView::Failed(*e),
        }
    }
}

/// What a reply status means for the connection.
pub open spec fn status_meaning(status: u8) -> Result<(), ConnectError> {
    if status == 0 {
        Ok(())
    } else if status == 1 {
        Err(ConnectError::ProxyGeneralFailure)
    } else if status == 3 {
        Err(ConnectError::NetworkUnreachable)
    } else if status == 4 {
        Err(ConnectError::HostUnreachable)
    } else if status == 5 {
        Err(ConnectError::ConnectionRefusedByDestination)
    } else {
        Err(ConnectError::UnknownProxyStatus)
    }
}

/// Maps a reply status to success or to the error it stands for.
pub fn status_result(status: u8) -> (r: Result<(), ConnectError>)
    ensures
        r == status_meaning(status),
{
    match status {
        0 => Ok(()),
        1 => Err(ConnectError::ProxyGeneralFailure),
        3 => Err(ConnectError::NetworkUnreachable),
        4 => Err(ConnectError::HostUnreachable),
        5 => Err(ConnectError::ConnectionRefusedByDestination),
        _ => Err(ConnectError::UnknownProxyStatus),
    }
}

/// How a handshake ends once the reply is drained.
pub open spec fn final_action(status: u8) -> ActionView {
    match status_meaning(status) {
        Ok(()) => ActionView::Established,
        Err(e) => ActionView::Failed(e),
    }
}

/// Whether the handshake waits for bytes from the proxy.
pub open spec fn awaiting(phase: Phase) -> bool {
    match phase {
        Phase::Start | Phase::Finished => false,
        _ => true,
    }
}

/// How many bytes the handshake waits for.
pub open spec fn expected_len(phase: Phase) -> int {
    match phase {
        Phase::AwaitMethod => 2,
        Phase::AwaitReplyHeader => 4,
        Phase::AwaitDomainLength { .. } => 1,
        Phase::AwaitTrailer { remaining, .. } => remaining as int,
        _ => 0,
    }
}

/// The handshake ends with the error.
pub open spec fn failed(e: ConnectError) -> (Phase, ActionView) {
    (Phase::Finished, ActionView::Failed(e))
}

/// Read `n` more bytes, sending nothing.
pub open spec fn read_next(n: usize) -> ActionView {
    ActionView::Exchange { send: Seq::empty(), receive: n }
}

/// One transition of the handshake: from the phase and the bytes read from
/// the proxy, the next phase and what the caller does next. `request` is the
/// CONNECT request of this handshake.
pub open spec fn next(phase: Phase, request: Seq<u8>, input: Seq<u8>) -> (Phase, ActionView) {
    if input.len() != expected_len(phase) {
        failed(ConnectError::TransportUnavailable)
    } else {
        match phase {
            Phase::AwaitMethod => if input[1] == NO_AUTH || input[1] == PASSWORD_AUTH {
                (Phase::AwaitReplyHeader, ActionView::Exchange { send: request, receive: 4 })
            } else {
                failed(ConnectError::UnsupportedAuthMethod)
            },
            Phase::AwaitReplyHeader => {
                let status = input[1];
                let atyp = input[3];
                if atyp == ATYP_IPV4 {
                    (Phase::AwaitTrailer { status, remaining: 6 }, read_next(6))
                } else if atyp == ATYP_IPV6 {
                    (Phase::AwaitTrailer { status, remaining: 18 }, read_next(18))
                } else if atyp == ATYP_DOMAIN {
                    (Phase::AwaitDomainLength { status }, read_next(1))
                } else {
                    failed(ConnectError::UnknownAddressType)
                }
            },
            Phase::AwaitDomainLength { status } => {
                let n = (input[0] + 2) as usize;
                (Phase::AwaitTrailer { status, remaining: n }, read_next(n))
            },
            Phase::AwaitTrailer { status, .. } => (Phase::Finished, final_action(status)),
            _ => failed(ConnectError::TransportUnavailable),
        }
    }
}

/// One connection attempt through the proxy, driven by the caller over its
/// own stream: [`Handshake::start`] once the stream is open, then
/// [`Handshake::step`] with the bytes of each read.
#[derive(Debug)]
pub struct Handshake {
    phase: Phase,
    greeting: Vec<u8>,
    request: Vec<u8>,
}

impl Handshake {
    /// The phase the handshake is in.
    pub closed spec fn spec_phase(&self) -> Phase {
        self.phase
    }

    /// The greeting this handshake sends.
    pub closed spec fn spec_greeting(&self) -> Seq<u8> {
        self.greeting@
    }

    /// The CONNECT request this handshake sends.
    pub closed spec fn spec_request(&self) -> Seq<u8> {
        self.request@
    }

    /// Prepares a CONNECT to `address:port` through the proxy. A domain name
    /// too long for the wire is refused here, before any byte is sent.
    pub fn new(proxy: &SocksV5, address: &NetAddress, port: u16) -> (r: Result<Handshake, ConnectError>)
        ensures
            encodable(address) <==> r is Ok,
            r matches Err(e) ==> e == ConnectError::AddressTooLong,
            r matches Ok(h) ==> {
                &&& h.spec_phase() == Phase::Start
                &&& h.spec_greeting() == proxy.spec_greeting()
                &&& h.spec_request() == request_bytes(address, port)
            },
    {
        match connect_request(address, port) {
            Some(request) => {
                let greeting = proxy.greeting().clone();
                assert(greeting@ == proxy.spec_greeting());
                Ok(Handshake { phase: Phase::Start, greeting, request })
            },
            None => Err(ConnectError::AddressTooLong),
        }
    }

    /// The phase the handshake is in.
    pub fn phase(&self) -> (r: Phase)
        ensures
            r == self.spec_phase(),
    {
        self.phase
    }

    /// Whether the handshake waits for bytes from the proxy.
    pub fn awaits_input(&self) -> (r: bool)
        ensures
            r == awaiting(self.spec_phase()),
    {
        match self.phase {
            Phase::Start | Phase::Finished => false,
            _ => true,
        }
    }

    /// Opens the exchange on a freshly opened stream: send the greeting, read
    /// the two bytes of the method reply.
    pub fn start(&mut self) -> (r: Action)
        requires
            old(self).spec_phase() == Phase::Start,
        ensures
            r@ == (ActionView::Exchange { send: old(self).spec_greeting(), receive: 2 }),
            final(self).spec_phase() == Phase::AwaitMethod,
            final(self).spec_greeting() == old(self).spec_greeting(),
            final(self).spec_request() == old(self).spec_request(),
    {
        self.phase = Phase::AwaitMethod;
        let send = self.greeting.clone();
        assert(send@ == self.greeting@);
        Action::Exchange { send, receive: 2 }
    }

    /// Takes the bytes read from the proxy and says what to do next.
    pub fn step(&mut self, input: &[u8]) -> (r: Action)
        requires
            awaiting(old(self).spec_phase()),
        ensures
            (final(self).spec_phase(), r@) == next(
                old(self).spec_phase(),
                old(self).spec_request(),
                input@,
            ),
            final(self).spec_greeting() == old(self).spec_greeting(),
            final(self).spec_request() == old(self).spec_request(),
    {
        let expected: usize = match self.phase {
            Phase::AwaitMethod => 2,
            Phase::AwaitReplyHeader => 4,
            Phase::AwaitDomainLength { .. } => 1,
            Phase::AwaitTrailer { remaining, .. } => remaining,
            _ => 0,
        };
        if input.len() != expected {
            self.phase = Phase::Finished;
            return Action::Failed(ConnectError::TransportUnavailable);
        }
        match self.phase {
            Phase::AwaitMethod => {
                let method = input[1];
                if method == NO_AUTH || method == PASSWORD_AUTH {
                    self.phase = Phase::AwaitReplyHeader;
                    let send = self.request.clone();
                    assert(send@ == self.request@);
                    Action::Exchange { send, receive: 4 }
                } else {
                    self.phase = Phase::Finished;
                    Action::Failed(ConnectError::UnsupportedAuthMethod)
                }
            },
            Phase::AwaitReplyHeader => {
                let status = input[1];
                let atyp = input[3];
                if atyp == ATYP_IPV4 {
                    self.phase = Phase::AwaitTrailer { status, remaining: 6 };
                    Action::Exchange { send: Vec::new(), receive: 6 }
                } else if atyp == ATYP_IPV6 {
                    self.phase = Phase::AwaitTrailer { status, remaining: 18 };
                    Action::Exchange { send: Vec::new(), receive: 18 }
                } else if atyp == ATYP_DOMAIN {
                    self.phase = Phase::AwaitDomainLength { status };
                    Action::Exchange { send: Vec::new(), receive: 1 }
                } else {
                    self.phase = Phase::Finished;
                    Action::Failed(ConnectError::UnknownAddressType)
                }
            },
            Phase::AwaitDomainLength { status } => {
                let n: usize = input[0] as usize + 2;
                self.phase = Phase::AwaitTrailer { status, remaining: n };
                Action::Exchange { send: Vec::new(), receive: n }
            },
            Phase::AwaitTrailer { status, .. } => {
                self.phase = Phase::Finished;
                match status_result(status) {
                    Ok(()) => Action::Established,
                    Err(e) => Action::Failed(e),
                }
            },
            _ => {
                self.phase = Phase::Finished;
                Action::Failed(ConnectError::TransportUnavailable)
            },
        }
    }
}

/// A reply whose bound address is a domain name is drained to its end,
/// whatever its status: one length byte `n`, then `n + 2` bytes, after which
/// the status alone decides the outcome.
pub proof fn lemma_domain_trailer_drained(
    request: Seq<u8>,
    version: u8,
    status: u8,
    reserved: u8,
    n: u8,
    trailer: Seq<u8>,
)
    requires
        trailer.len() == n + 2,
    ensures
        next(Phase::AwaitReplyHeader, request, seq![version, status, reserved, ATYP_DOMAIN]) == (
        Phase::AwaitDomainLength { status }, read_next(1)),
        next(Phase::AwaitDomainLength { status }, request, seq![n]) == (
        Phase::AwaitTrailer { status, remaining: (n + 2) as usize }, read_next((n + 2) as usize)),
        next(Phase::AwaitTrailer { status, remaining: (n + 2) as usize }, request, trailer) == (
        Phase::Finished, final_action(status)),
{
}

/// A reply whose bound address is an IP address is drained by reading the
/// address and port (6 bytes for IPv4, 18 for IPv6), whatever its status,
/// after which the status alone decides the outcome.
pub proof fn lemma_ip_trailer_drained(
    request: Seq<u8>,
    version: u8,
    status: u8,
    reserved: u8,
    atyp: u8,
    trailer: Seq<u8>,
)
    requires
        atyp == ATYP_IPV4 || atyp == ATYP_IPV6,
        trailer.len() == if atyp == ATYP_IPV4 { 6int } else { 18int },
    ensures
        ({
            let n = trailer.len() as usize;
            &&& next(Phase::AwaitReplyHeader, request, seq![version, status, reserved, atyp]) == (
            Phase::AwaitTrailer { status, remaining: n }, read_next(n))
            &&& next(Phase::AwaitTrailer { status, remaining: n }, request, trailer) == (
            Phase::Finished, final_action(status))
        }),
{
}

/// A method reply that selects anything but "no authentication" or
/// "username/password" ends the handshake with `UnsupportedAuthMethod`, and
/// no request is sent.
pub proof fn lemma_unsupported_method(request: Seq<u8>, version: u8, method: u8)
    requires
        method != NO_AUTH && method != PASSWORD_AUTH,
    ensures
        next(Phase::AwaitMethod, request, seq![version, method]) == failed(
            ConnectError::UnsupportedAuthMethod,
        ),
{
}

/// A reply header with an unknown address type ends the handshake with
/// `UnknownAddressType`, whatever its status, and nothing more is read.
pub proof fn lemma_unknown_address_type(
    request: Seq<u8>,
    version: u8,
    status: u8,
    reserved: u8,
    atyp: u8,
)
    requires
        atyp != ATYP_IPV4 && atyp != ATYP_IPV6 && atyp != ATYP_DOMAIN,
    ensures
        next(Phase::AwaitReplyHeader, request, seq![version, status, reserved, atyp]) == failed(
            ConnectError::UnknownAddressType,
        ),
{
}

} // verus!
