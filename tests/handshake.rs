use proxy_client::proxy::{encode_address, Credential, NetAddress};
use proxy_client::socks_v5::{status_result, Action, ConnectError, Handshake, IpAddress, Phase, SocksV5};
use proxy_client::wire::{connect_request, parse_connect_request};

/// A proxy that answers from a fixed byte stream and records what it is sent.
struct MockProxy {
    replies: Vec<u8>,
    read_pos: usize,
    writes: Vec<Vec<u8>>,
}

impl MockProxy {
    fn new(replies: &[u8]) -> MockProxy {
        MockProxy { replies: replies.to_vec(), read_pos: 0, writes: Vec::new() }
    }

    fn read(&mut self, n: usize) -> Vec<u8> {
        let end = usize::min(self.read_pos + n, self.replies.len());
        let out = self.replies[self.read_pos..end].to_vec();
        self.read_pos = end;
        out
    }
}

fn local_proxy(credential: Option<Credential>) -> SocksV5 {
    SocksV5::new(IpAddress::V4([127, 0, 0, 1]), 9050, credential)
}

/// Runs one connection attempt against the mock; the error, if any, is returned.
fn connect(proxy: &SocksV5, address: &NetAddress, port: u16, mock: &mut MockProxy) -> Result<(), ConnectError> {
    let mut handshake = Handshake::new(proxy, address, port)?;
    let mut action = handshake.start();
    loop {
        match action {
            Action::Exchange { send, receive } => {
                if !send.is_empty() {
                    mock.writes.push(send);
                }
                let input = mock.read(receive);
                assert!(handshake.awaits_input());
                action = handshake.step(&input);
            }
            Action::Established => return Ok(()),
            Action::Failed(e) => return Err(e),
        }
    }
}

fn domain(len: usize) -> NetAddress {
    NetAddress::Str("a".repeat(len))
}

#[test]
fn credential_new_builds() {
    let c = Credential::new("user".to_string(), "pass".to_string());
    let proxy = local_proxy(Some(c));
    assert_eq!(proxy.greeting(), &vec![5, 2, 0, 2]);
}

#[test]
fn greeting_without_credential_offers_no_auth_only() {
    let proxy = local_proxy(None);
    assert_eq!(proxy.greeting(), &vec![5, 1, 0]);
    assert!(matches!(proxy.proxy_address(), IpAddress::V4([127, 0, 0, 1])));
    assert_eq!(proxy.proxy_port(), 9050);
}

#[test]
fn encode_ipv4_block() {
    assert_eq!(encode_address(&NetAddress::V4([10, 0, 0, 7])), Some(vec![1, 10, 0, 0, 7]));
}

#[test]
fn encode_ipv6_block() {
    let octets: [u8; 16] = [0x20, 0x01, 0x0d, 0xb8, 0, 0, 0, 0, 0, 0, 0, 0, 0, 0, 0, 1];
    let mut expected = vec![4];
    expected.extend_from_slice(&octets);
    assert_eq!(encode_address(&NetAddress::V6(octets)), Some(expected));
}

#[test]
fn encode_domain_block() {
    let block = encode_address(&NetAddress::Str("example.com".to_string())).unwrap();
    let mut expected = vec![3, 11];
    expected.extend_from_slice(b"example.com");
    assert_eq!(block, expected);
}

#[test]
fn encode_domain_counts_utf8_bytes() {
    let block = encode_address(&NetAddress::Str("b\u{fc}cher.de".to_string())).unwrap();
    assert_eq!(block[1], 10);
    assert_eq!(block.len(), 12);
}

#[test]
fn domain_of_255_bytes_is_encoded() {
    let block = encode_address(&domain(255)).unwrap();
    assert_eq!(block.len(), 257);
    assert_eq!(block[1], 255);
}

#[test]
fn domain_of_256_bytes_is_not_encoded() {
    assert_eq!(encode_address(&domain(256)), None);
    assert_eq!(connect_request(&domain(256), 80), None);
}

#[test]
fn request_port_is_big_endian() {
    let req = connect_request(&NetAddress::V4([1, 2, 3, 4]), 8080).unwrap();
    assert_eq!(req, vec![5, 1, 0, 1, 1, 2, 3, 4, 0x1f, 0x90]);
}

#[test]
fn round_trip_ipv4() {
    let req = connect_request(&NetAddress::V4([192, 168, 1, 20]), 443).unwrap();
    let parsed = parse_connect_request(&req).unwrap();
    assert_eq!(parsed.command, 1);
    assert_eq!(parsed.address_type, 1);
    assert_eq!(parsed.address, vec![192, 168, 1, 20]);
    assert_eq!(parsed.port, 443);
}

#[test]
fn round_trip_ipv6() {
    let octets: [u8; 16] = [0xfe, 0x80, 1, 2, 3, 4, 5, 6, 7, 8, 9, 10, 11, 12, 13, 14];
    let req = connect_request(&NetAddress::V6(octets), 65535).unwrap();
    let parsed = parse_connect_request(&req).unwrap();
    assert_eq!(parsed.address_type, 4);
    assert_eq!(parsed.address, octets.to_vec());
    assert_eq!(parsed.port, 65535);
}

#[test]
fn round_trip_domain_on_mock_proxy() {
    let proxy = local_proxy(None);
    let address = NetAddress::Str("www.duckduck.com".to_string());
    let mut mock = MockProxy::new(&[5, 0, 5, 0, 0, 1, 0, 0, 0, 0, 0, 0]);
    assert_eq!(connect(&proxy, &address, 80, &mut mock), Ok(()));
    assert_eq!(mock.writes.len(), 2);
    let parsed = parse_connect_request(&mock.writes[1]).unwrap();
    assert_eq!(parsed.command, 1);
    assert_eq!(parsed.address_type, 3);
    assert_eq!(parsed.address, b"www.duckduck.com".to_vec());
    assert_eq!(parsed.port, 80);
}

#[test]
fn round_trip_longest_domain() {
    let req = connect_request(&domain(255), 1).unwrap();
    let parsed = parse_connect_request(&req).unwrap();
    assert_eq!(parsed.address, vec![b'a'; 255]);
    assert_eq!(parsed.port, 1);
}

#[test]
fn parse_rejects_truncated_request() {
    let req = connect_request(&NetAddress::V4([1, 2, 3, 4]), 80).unwrap();
    assert!(parse_connect_request(&req[..req.len() - 1]).is_none());
    assert!(parse_connect_request(&[5, 1, 0]).is_none());
}

#[test]
fn long_domain_rejected_before_any_write() {
    let proxy = local_proxy(None);
    let mut mock = MockProxy::new(&[5, 0, 5, 0, 0, 1, 0, 0, 0, 0, 0, 0]);
    assert_eq!(connect(&proxy, &domain(256), 80, &mut mock), Err(ConnectError::AddressTooLong));
    assert_eq!(mock.writes.len(), 0);
    assert_eq!(mock.read_pos, 0);
}

#[test]
fn success_leaves_stream_after_reply() {
    let proxy = local_proxy(None);
    let mut replies = vec![5, 0];
    replies.extend_from_slice(&[5, 0, 0, 1, 0, 0, 0, 0, 0, 0]);
    replies.extend_from_slice(b"HTTP");
    let mut mock = MockProxy::new(&replies);
    assert_eq!(connect(&proxy, &NetAddress::V4([93, 184, 216, 34]), 80, &mut mock), Ok(()));
    assert_eq!(mock.read_pos, 2 + 10);
    assert_eq!(mock.read(4), b"HTTP".to_vec());
    assert_eq!(mock.writes[0], vec![5, 1, 0]);
    assert_eq!(mock.writes[1], vec![5, 1, 0, 1, 93, 184, 216, 34, 0, 80]);
}

#[test]
fn refused_consumes_header_and_ipv4_trailer() {
    let proxy = local_proxy(None);
    let mut mock = MockProxy::new(&[5, 0, 5, 5, 0, 1, 9, 9, 9, 9, 1, 1, 77]);
    assert_eq!(
        connect(&proxy, &NetAddress::V4([1, 1, 1, 1]), 80, &mut mock),
        Err(ConnectError::ConnectionRefusedByDestination)
    );
    assert_eq!(mock.read_pos, 2 + 4 + 6);
}

#[test]
fn domain_trailer_consumed_on_success() {
    let proxy = local_proxy(None);
    let mut replies = vec![5, 0, 5, 0, 0, 3, 10];
    replies.extend_from_slice(b"proxy.host");
    replies.extend_from_slice(&[0, 80, 99]);
    let mut mock = MockProxy::new(&replies);
    assert_eq!(connect(&proxy, &NetAddress::V4([1, 1, 1, 1]), 80, &mut mock), Ok(()));
    assert_eq!(mock.read_pos, 2 + 4 + 13);
}

#[test]
fn domain_trailer_consumed_on_failure() {
    let proxy = local_proxy(None);
    let mut replies = vec![5, 0, 5, 4, 0, 3, 10];
    replies.extend_from_slice(b"proxy.host");
    replies.extend_from_slice(&[0, 80, 99]);
    let mut mock = MockProxy::new(&replies);
    assert_eq!(
        connect(&proxy, &NetAddress::V4([1, 1, 1, 1]), 80, &mut mock),
        Err(ConnectError::HostUnreachable)
    );
    assert_eq!(mock.read_pos, 2 + 4 + 13);
}

#[test]
fn ipv6_trailer_consumed() {
    let proxy = local_proxy(None);
    let mut replies = vec![5, 0, 5, 0, 0, 4];
    replies.extend_from_slice(&[0; 18]);
    replies.push(7);
    let mut mock = MockProxy::new(&replies);
    assert_eq!(connect(&proxy, &NetAddress::V4([1, 1, 1, 1]), 80, &mut mock), Ok(()));
    assert_eq!(mock.read_pos, 2 + 4 + 18);
}

#[test]
fn unsupported_method_sends_no_request() {
    let proxy = local_proxy(None);
    let mut mock = MockProxy::new(&[5, 1, 5, 0, 0, 1, 0, 0, 0, 0, 0, 0]);
    assert_eq!(
        connect(&proxy, &NetAddress::V4([1, 1, 1, 1]), 80, &mut mock),
        Err(ConnectError::UnsupportedAuthMethod)
    );
    assert_eq!(mock.writes.len(), 1);
    assert_eq!(mock.read_pos, 2);
}

#[test]
fn no_acceptable_method_is_unsupported() {
    let proxy = local_proxy(None);
    let mut mock = MockProxy::new(&[5, 0xff]);
    assert_eq!(
        connect(&proxy, &NetAddress::V4([1, 1, 1, 1]), 80, &mut mock),
        Err(ConnectError::UnsupportedAuthMethod)
    );
}

#[test]
fn password_method_proceeds() {
    let proxy = local_proxy(Some(Credential::new("u".to_string(), "p".to_string())));
    let mut mock = MockProxy::new(&[5, 2, 5, 0, 0, 1, 0, 0, 0, 0, 0, 0]);
    assert_eq!(connect(&proxy, &NetAddress::V4([1, 1, 1, 1]), 80, &mut mock), Ok(()));
    assert_eq!(mock.writes[0], vec![5, 2, 0, 2]);
}

#[test]
fn unknown_address_type_stops_reading() {
    let proxy = local_proxy(None);
    let mut mock = MockProxy::new(&[5, 0, 5, 0, 0, 99, 1, 2, 3, 4, 5, 6]);
    assert_eq!(
        connect(&proxy, &NetAddress::V4([1, 1, 1, 1]), 80, &mut mock),
        Err(ConnectError::UnknownAddressType)
    );
    assert_eq!(mock.read_pos, 2 + 4);
}

#[test]
fn unknown_address_type_wins_over_status() {
    let proxy = local_proxy(None);
    let mut mock = MockProxy::new(&[5, 0, 5, 5, 0, 2]);
    assert_eq!(
        connect(&proxy, &NetAddress::V4([1, 1, 1, 1]), 80, &mut mock),
        Err(ConnectError::UnknownAddressType)
    );
}

#[test]
fn short_read_is_transport_failure() {
    let proxy = local_proxy(None);
    let mut mock = MockProxy::new(&[5, 0, 5, 0, 0, 1, 0, 0]);
    assert_eq!(
        connect(&proxy, &NetAddress::V4([1, 1, 1, 1]), 80, &mut mock),
        Err(ConnectError::TransportUnavailable)
    );
}

#[test]
fn status_codes_map_to_errors() {
    assert_eq!(status_result(0), Ok(()));
    assert_eq!(status_result(1), Err(ConnectError::ProxyGeneralFailure));
    assert_eq!(status_result(2), Err(ConnectError::UnknownProxyStatus));
    assert_eq!(status_result(3), Err(ConnectError::NetworkUnreachable));
    assert_eq!(status_result(4), Err(ConnectError::HostUnreachable));
    assert_eq!(status_result(5), Err(ConnectError::ConnectionRefusedByDestination));
    assert_eq!(status_result(8), Err(ConnectError::UnknownProxyStatus));
}

#[test]
fn general_failure_after_trailer() {
    let proxy = local_proxy(None);
    let mut mock = MockProxy::new(&[5, 0, 5, 1, 0, 1, 0, 0, 0, 0, 0, 0]);
    assert_eq!(
        connect(&proxy, &NetAddress::V4([1, 1, 1, 1]), 80, &mut mock),
        Err(ConnectError::ProxyGeneralFailure)
    );
    assert_eq!(mock.read_pos, 12);
}

#[test]
fn phases_follow_the_exchange() {
    let proxy = local_proxy(None);
    let mut h = Handshake::new(&proxy, &NetAddress::V4([1, 1, 1, 1]), 80).unwrap();
    assert_eq!(h.phase(), Phase::Start);
    assert!(!h.awaits_input());
    h.start();
    assert_eq!(h.phase(), Phase::AwaitMethod);
    h.step(&[5, 0]);
    assert_eq!(h.phase(), Phase::AwaitReplyHeader);
    h.step(&[5, 3, 0, 3]);
    assert_eq!(h.phase(), Phase::AwaitDomainLength { status: 3 });
    h.step(&[4]);
    assert_eq!(h.phase(), Phase::AwaitTrailer { status: 3, remaining: 6 });
    assert!(matches!(h.step(&[0; 6]), Action::Failed(ConnectError::NetworkUnreachable)));
    assert_eq!(h.phase(), Phase::Finished);
}
