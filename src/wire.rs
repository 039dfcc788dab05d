use vstd::prelude::*;
use crate::proxy::{
    address_block, address_type, address_value, encodable, encode_address, NetAddress, ATYP_DOMAIN,
    ATYP_IPV4, ATYP_IPV6,
};

verus! {

/// The protocol version byte that opens every client message.
pub const PROXY_VERSION: u8 = 5;

/// The command code of a CONNECT request.
pub const CMD_CONNECT: u8 = 1;

/// A port on the wire: two bytes, most significant first.
pub open spec fn port_bytes(port: u16) -> Seq<u8> {
    seq![(port / 256) as u8, (port % 256) as u8]
}

/// A CONNECT request for the address and port: version, command, a reserved
/// zero byte, the address block and the port.
pub open spec fn request_bytes(address: &NetAddress, port: u16) -> Seq<u8> {
    seq![PROXY_VERSION, CMD_CONNECT, 0u8] + address_block(address) + port_bytes(port)
}

/// Frames the CONNECT request for the destination, or `None` where its domain
/// name is too long to be encoded.
pub fn connect_request(address: &NetAddress, port: u16) -> (r: Option<Vec<u8>>)
    ensures
        encodable(address) <==> r is Some,
        r matches Some(v) ==> v@ == request_bytes(address, port),
{
    let block = match encode_address(address) {
        Some(block) => block,
        None => return None,
    };
    let mut msg: Vec<u8> = vec![PROXY_VERSION, CMD_CONNECT, 0];
    let mut i: usize = 0;
    while i < block.len()
        invariant
            i <= block@.len(),
            msg@ == seq![PROXY_VERSION, CMD_CONNECT, 0u8] + block@.subrange(0, i as int),
        decreases block@.len() - i,
    {
        msg.push(block[i]);
        i = i + 1;
        assert(block@.subrange(0, i as int) == block@.subrange(0, i - 1) + seq![block@[i - 1]]);
    }
    assert(block@.subrange(0, i as int) == block@);
    msg.push((port / 256) as u8);
    msg.push((port % 256) as u8);
    Some(msg)
}

/// The fields of a CONNECT request, as a proxy reads them.
pub struct RequestFields {
    pub command: u8,
    pub address_type: u8,
    pub address: Seq<u8>,
    pub port: u16,
}

/// Where the address of a request starts, and how many bytes it has, as its
/// address type says.
pub open spec fn address_span(s: Seq<u8>) -> Option<(int, int)> {
    if s.len() < 4 {
        None
    } else if s[3] == ATYP_IPV4 {
        Some((4, 4))
    } else if s[3] == ATYP_IPV6 {
        Some((4, 16))
    } else if s[3] == ATYP_DOMAIN && s.len() >= 5 {
        Some((5, s[4] as int))
    } else {
        None
    }
}

/// Reads a whole CONNECT request: `None` where the bytes are not one.
pub open spec fn parse_request(s: Seq<u8>) -> Option<RequestFields> {
    match address_span(s) {
        None => None,
        Some((start, len)) => if s[0] != PROXY_VERSION || s[2] != 0 || s.len() != start + len + 2 {
            None
        } else {
            Some(
                RequestFields {
                    command: s[1],
                    address_type: s[3],
                    address: s.subrange(start, start + len),
                    port: (s[start + len] as int * 256 + s[start + len + 1] as int) as u16,
                },
            )
        },
    }
}

/// A CONNECT request as a proxy receives it.
pub struct ConnectRequest {
    pub command: u8,
    pub address_type: u8,
    pub address: Vec<u8>,
    pub port: u16,
}

impl View for ConnectRequest {
    type V = RequestFields;

    open spec fn view(&self) -> RequestFields {
        RequestFields {
            command: self.command,
            address_type: self.address_type,
            address: self.address@,
            port: self.port,
        }
    }
}

fn copy_range(bytes: &[u8], start: usize, end: usize) -> (r: Vec<u8>)
    requires
        start <= end <= bytes@.len(),
    ensures
        r@ == bytes@.subrange(start as int, end as int),
{
    let mut out: Vec<u8> = Vec::new();
    let mut i: usize = start;
    while i < end
        invariant
            start <= i <= end <= bytes@.len(),
            out@ == bytes@.subrange(start as int, i as int),
        decreases end - i,
    {
        out.push(bytes[i]);
        i = i + 1;
        assert(bytes@.subrange(start as int, i as int) == bytes@.subrange(start as int, i - 1)
            + seq![bytes@[i - 1]]);
    }
    out
}

/// Decodes a CONNECT request, the way a proxy reads what a client sent.
pub fn parse_connect_request(bytes: &[u8]) -> (r: Option<ConnectRequest>)
    ensures
        match r {
            Some(q) => parse_request(bytes@) == Some(q@),
            None => parse_request(bytes@) is None,
        },
{
    let n = bytes.len();
    if n < 4 {
        return None;
    }
    let atyp = bytes[3];
    let (start, len): (usize, usize) = if atyp == ATYP_IPV4 {
        (4, 4)
    } else if atyp == ATYP_IPV6 {
        (4, 16)
    } else if atyp == ATYP_DOMAIN && n >= 5 {
        (5, bytes[4] as usize)
    } else {
        return None;
    };
    if bytes[0] != PROXY_VERSION || bytes[2] != 0 || n != start + len + 2 {
        return None;
    }
    let address = copy_range(bytes, start, start + len);
    let port: u16 = (bytes[start + len] as u16) * 256 + bytes[start + len + 1] as u16;
    Some(ConnectRequest { command: bytes[1], address_type: atyp, address, port })
}

/// Decoding a request that was encoded gives back the command, the address
/// type, the address and the port that went in.
pub proof fn lemma_request_round_trip(address: &NetAddress, port: u16)
    requires
        encodable(address),
    ensures
        parse_request(request_bytes(address, port)) == Some(
            RequestFields {
                command: CMD_CONNECT,
                address_type: address_type(address),
                address: address_value(address),
                port,
            },
        ),
{
    let s = request_bytes(address, port);
    let v = address_value(address);
    let start: int = match address {
        NetAddress::Str(_) => 5,
        _ => 4,
    };
    assert(s.subrange(start, start + v.len()) == v);
    assert(s[start + v.len()] == (port / 256) as u8);
    assert(s[start + v.len() + 1] == (port % 256) as u8);
    assert(((port / 256) as u8) as int * 256 + ((port % 256) as u8) as int == port as int);
}

} // verus!
