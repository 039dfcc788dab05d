use vstd::prelude::*;
use vstd::utf8::encode_utf8;

verus! {

/// Address type code of an IPv4 address on the wire.
pub const ATYP_IPV4: u8 = 1;

/// Address type code of a domain name on the wire.
pub const ATYP_DOMAIN: u8 = 3;

/// Address type code of an IPv6 address on the wire.
pub const ATYP_IPV6: u8 = 4;

/// Longest domain name, in bytes, that its one-byte length prefix can carry.
pub const MAX_DOMAIN_LEN: usize = 255;

/// A username and password for proxy access. The configuration holds it; it
/// is never put on the wire.
#[derive(Debug)]
pub struct Credential {
    user: String,
    password: String,
}

impl View for Credential {
    type V = (Seq<char>, Seq<char>);

    closed spec fn view(&self) -> (Seq<char>, Seq<char>) {
        (self.user@, self.password@)
    }
}

impl Credential {
    pub fn new(user: String, password: String) -> (r: Credential)
        ensures
            r@ == (user@, password@),
    {
        Credential { user, password }
    }
}

/// A destination for the proxy to connect to.
pub enum NetAddress {
    V4([u8; 4]),
    V6([u8; 16]),
    Str(String),
}

/// The bytes that stand for the address on the wire: the octets of an IP
/// address, or the UTF-8 bytes of a domain name.
pub open spec fn address_value(a: &NetAddress) -> Seq<u8> {
    match a {
        NetAddress::V4(o) => o@,
        NetAddress::V6(o) => o@,
        NetAddress::Str(s) => encode_utf8(s@),
    }
}

/// The address type code that announces the address on the wire.
pub open spec fn address_type(a: &NetAddress) -> u8 {
    match a {
        NetAddress::V4(_) => ATYP_IPV4,
        NetAddress::V6(_) => ATYP_IPV6,
        NetAddress::Str(_) => ATYP_DOMAIN,
    }
}

/// Whether the address can be put on the wire: a domain name must fit its
/// one-byte length prefix.
pub open spec fn encodable(a: &NetAddress) -> bool {
    match a {
        NetAddress::Str(s) => encode_utf8(s@).len() <= MAX_DOMAIN_LEN,
        _ => true,
    }
}

/// The address block of a request: the type code, then the address; a domain
/// name is preceded by its length.
pub open spec fn address_block(a: &NetAddress) -> Seq<u8> {
    match a {
        NetAddress::Str(_) => seq![ATYP_DOMAIN, address_value(a).len() as u8] + address_value(a),
        _ => seq![address_type(a)] + address_value(a),
    }
}

fn push_all(v: &mut Vec<u8>, bytes: &[u8])
    ensures
        final(v)@ == old(v)@ + bytes@,
{
    let mut i: usize = 0;
    while i < bytes.len()
        invariant
            i <= bytes@.len(),
            v@ == old(v)@ + bytes@.subrange(0, i as int),
        decreases bytes@.len() - i,
    {
        v.push(bytes[i]);
        i = i + 1;
        assert(bytes@.subrange(0, i as int) == bytes@.subrange(0, i - 1) + seq![bytes@[i - 1]]);
    }
    assert(bytes@.subrange(0, i as int) == bytes@);
}

/// Encodes the address block of a request, or `None` where a domain name is
/// longer than its length prefix can say.
pub fn encode_address(address: &NetAddress) -> (r: Option<Vec<u8>>)
    ensures
        encodable(address) <==> r is Some,
        r matches Some(v) ==> v@ == address_block(address),
{
    match address {
        NetAddress::V4(octets) => {
            let mut block: Vec<u8> = vec![ATYP_IPV4];
            push_all(&mut block, octets.as_slice());
            Some(block)
        },
        NetAddress::V6(octets) => {
            let mut block: Vec<u8> = vec![ATYP_IPV6];
            push_all(&mut block, octets.as_slice());
            Some(block)
        },
        NetAddress::Str(name) => {
            let bytes = name.as_str().as_bytes();
            if bytes.len() > MAX_DOMAIN_LEN {
                return None;
            }
            let mut block: Vec<u8> = vec![ATYP_DOMAIN, bytes.len() as u8];
            push_all(&mut block, bytes);
            Some(block)
        },
    }
}

} // verus!
