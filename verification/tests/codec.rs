//! NAT-PMP and PCP codec and validation tests.

use portmapper::ip::{Ipv4Address, Ipv6Address};
use portmapper::{nat_pmp, pcp};

fn be16(x: u16) -> [u8; 2] {
    [(x >> 8) as u8, (x & 0xff) as u8]
}

fn be32(x: u32) -> [u8; 4] {
    [
        (x >> 24) as u8,
        ((x >> 16) & 0xff) as u8,
        ((x >> 8) & 0xff) as u8,
        (x & 0xff) as u8,
    ]
}

#[test]
fn natpmp_request_round_trip() {
    let req = nat_pmp::Request::Mapping {
        proto: nat_pmp::MapProtocol::Udp,
        local_port: 41641,
        external_port: 0,
        lifetime_seconds: 7200,
    };
    let bytes = req.encode();
    assert_eq!(bytes.len(), 12);
    assert_eq!(nat_pmp::Request::decode(&bytes), Ok(req));

    let probe = nat_pmp::Request::ExternalAddress;
    let bytes = probe.encode();
    assert_eq!(bytes, vec![0u8, 0u8]);
    assert_eq!(nat_pmp::Request::decode(&bytes), Ok(probe));
}

#[test]
fn natpmp_response_decode() {
    // A public-address response: version 0, opcode 0x80, success,
    // epoch 9, address 203.0.113.7.
    let mut bytes = vec![0u8, 0x80, 0, 0];
    bytes.extend_from_slice(&be32(9));
    bytes.extend_from_slice(&[203, 0, 113, 7]);
    let resp = nat_pmp::Response::decode(&bytes).unwrap();
    assert_eq!(
        resp,
        nat_pmp::Response::PublicAddress {
            epoch_time: 9,
            public_ip: Ipv4Address::new(203, 0, 113, 7),
        }
    );
    assert!(nat_pmp::probe_available(Ok(resp)));
}

#[test]
fn natpmp_map_success() {
    let map = nat_pmp::Response::PortMap {
        proto: nat_pmp::MapProtocol::Udp,
        epoch_time: 1,
        private_port: 41641,
        external_port: 55555,
        lifetime_seconds: 7200,
    };
    let addr = nat_pmp::Response::PublicAddress {
        epoch_time: 1,
        public_ip: Ipv4Address::new(203, 0, 113, 7),
    };
    let m = nat_pmp::Mapping::new(
        Ipv4Address::new(192, 168, 1, 10),
        41641,
        Ipv4Address::new(192, 168, 1, 1),
        map,
        addr,
    )
    .unwrap();
    assert_eq!(m.external_port, 55555);
    assert_eq!(m.external_addr, Ipv4Address::new(203, 0, 113, 7));
    assert_eq!(m.lifetime_seconds, 7200);
    assert_eq!(m.half_lifetime(), 3600);
}

#[test]
fn natpmp_zero_external_port() {
    // The server replies opcode 0x81 echoing the port but assigning
    // external port 0.
    let mut bytes = vec![0u8, 0x81, 0, 0];
    bytes.extend_from_slice(&be32(1));
    bytes.extend_from_slice(&be16(41641));
    bytes.extend_from_slice(&be16(0));
    bytes.extend_from_slice(&be32(7200));
    let resp = nat_pmp::Response::decode(&bytes).unwrap();
    let addr = nat_pmp::Response::PublicAddress {
        epoch_time: 1,
        public_ip: Ipv4Address::new(203, 0, 113, 7),
    };
    let r = nat_pmp::Mapping::new(
        Ipv4Address::new(192, 168, 1, 10),
        41641,
        Ipv4Address::new(192, 168, 1, 1),
        resp,
        addr,
    );
    assert_eq!(r, Err(nat_pmp::Error::ZeroExternalPort));
}

#[test]
fn natpmp_port_echo_mismatch() {
    let map = nat_pmp::Response::PortMap {
        proto: nat_pmp::MapProtocol::Udp,
        epoch_time: 1,
        private_port: 1234,
        external_port: 55555,
        lifetime_seconds: 7200,
    };
    let addr = nat_pmp::Response::PublicAddress {
        epoch_time: 1,
        public_ip: Ipv4Address::new(203, 0, 113, 7),
    };
    let r = nat_pmp::Mapping::new(
        Ipv4Address::new(192, 168, 1, 10),
        41641,
        Ipv4Address::new(192, 168, 1, 1),
        map,
        addr,
    );
    assert_eq!(r, Err(nat_pmp::Error::UnexpectedServerResponse));
}

#[test]
fn natpmp_release_request() {
    let m = nat_pmp::Mapping {
        local_ip: Ipv4Address::new(192, 168, 1, 10),
        local_port: 41641,
        gateway: Ipv4Address::new(192, 168, 1, 1),
        external_port: 55555,
        external_addr: Ipv4Address::new(203, 0, 113, 7),
        lifetime_seconds: 7200,
    };
    let req = m.release_request();
    assert_eq!(
        req,
        nat_pmp::Request::Mapping {
            proto: nat_pmp::MapProtocol::Udp,
            local_port: 41641,
            external_port: 0,
            lifetime_seconds: 0,
        }
    );
}

fn pcp_map_response_bytes(
    nonce: [u8; 12],
    protocol: u8,
    local_port: u16,
    external_port: u16,
    external_addr: Ipv6Address,
    lifetime: u32,
) -> Vec<u8> {
    let mut b = vec![2u8, 0x81, 0, 0];
    b.extend_from_slice(&be32(lifetime));
    b.extend_from_slice(&be32(77)); // epoch
    b.extend_from_slice(&[0u8; 12]);
    b.extend_from_slice(&nonce);
    b.push(protocol);
    b.extend_from_slice(&[0u8; 3]);
    b.extend_from_slice(&be16(local_port));
    b.extend_from_slice(&be16(external_port));
    for seg in [
        external_addr.s0,
        external_addr.s1,
        external_addr.s2,
        external_addr.s3,
        external_addr.s4,
        external_addr.s5,
        external_addr.s6,
        external_addr.s7,
    ] {
        b.extend_from_slice(&be16(seg));
    }
    b
}

#[test]
fn pcp_request_round_trip() {
    let nonce = [1u8, 2, 3, 4, 5, 6, 7, 8, 9, 10, 11, 12];
    let req = pcp::Request::mapping(
        nonce,
        41641,
        Ipv4Address::new(192, 168, 1, 10),
        Some(55555),
        Some(Ipv4Address::new(203, 0, 113, 7)),
        3600,
    );
    let bytes = req.encode();
    assert_eq!(bytes.len(), 60);
    match pcp::Request::decode(&bytes).unwrap() {
        pcp::Request::Mapping {
            lifetime_seconds,
            client_addr,
            nonce: n,
            protocol,
            local_port,
            external_port,
            external_address,
        } => {
            assert_eq!(lifetime_seconds, 3600);
            assert_eq!(
                client_addr.to_ipv4_mapped(),
                Some(Ipv4Address::new(192, 168, 1, 10))
            );
            assert_eq!(n, nonce);
            assert_eq!(protocol, 17);
            assert_eq!(local_port, 41641);
            assert_eq!(external_port, 55555);
            assert_eq!(
                external_address.to_ipv4_mapped(),
                Some(Ipv4Address::new(203, 0, 113, 7))
            );
        }
        other => panic!("decoded to the wrong variant: {:?}", other),
    }

    let announce = pcp::Request::announce(Ipv4Address::new(192, 168, 1, 10).to_ipv6_mapped());
    let bytes = announce.encode();
    assert_eq!(bytes.len(), 24);
    match pcp::Request::decode(&bytes).unwrap() {
        pcp::Request::Announce { client_addr } => {
            assert_eq!(
                client_addr.to_ipv4_mapped(),
                Some(Ipv4Address::new(192, 168, 1, 10))
            );
        }
        other => panic!("decoded to the wrong variant: {:?}", other),
    }
}

#[test]
fn pcp_map_success() {
    // Scenario: local 192.168.1.10:41641 behind 192.168.1.1, no
    // preferred external; the server echoes everything and assigns
    // 203.0.113.7:55555 for an hour.
    let nonce = [9u8; 12];
    let ext = Ipv4Address::new(203, 0, 113, 7).to_ipv6_mapped();
    let bytes = pcp_map_response_bytes(nonce, 17, 41641, 55555, ext, 3600);
    let resp = pcp::Response::decode(&bytes).unwrap();
    let m = pcp::Mapping::new(
        Ipv4Address::new(192, 168, 1, 10),
        41641,
        Ipv4Address::new(192, 168, 1, 1),
        nonce,
        resp,
    )
    .unwrap();
    assert_eq!(m.external_address, Ipv4Address::new(203, 0, 113, 7));
    assert_eq!(m.external_port, 55555);
    assert_eq!(m.lifetime_seconds, 3600);
    assert_eq!(m.half_lifetime(), 1800);
}

#[test]
fn pcp_nonce_mismatch() {
    let sent = [9u8; 12];
    let echoed = [8u8; 12];
    let ext = Ipv4Address::new(203, 0, 113, 7).to_ipv6_mapped();
    let bytes = pcp_map_response_bytes(echoed, 17, 41641, 55555, ext, 3600);
    let resp = pcp::Response::decode(&bytes).unwrap();
    let r = pcp::Mapping::new(
        Ipv4Address::new(192, 168, 1, 10),
        41641,
        Ipv4Address::new(192, 168, 1, 1),
        sent,
        resp,
    );
    assert_eq!(r.unwrap_err(), pcp::Error::NonceMissmatch);
}

#[test]
fn pcp_protocol_mismatch() {
    let nonce = [9u8; 12];
    let ext = Ipv4Address::new(203, 0, 113, 7).to_ipv6_mapped();
    let bytes = pcp_map_response_bytes(nonce, 6, 41641, 55555, ext, 3600);
    let resp = pcp::Response::decode(&bytes).unwrap();
    let r = pcp::Mapping::new(
        Ipv4Address::new(192, 168, 1, 10),
        41641,
        Ipv4Address::new(192, 168, 1, 1),
        nonce,
        resp,
    );
    assert_eq!(r.unwrap_err(), pcp::Error::ProtocolMissmatch);
}

#[test]
fn pcp_port_echo_mismatch() {
    let nonce = [9u8; 12];
    let ext = Ipv4Address::new(203, 0, 113, 7).to_ipv6_mapped();
    let bytes = pcp_map_response_bytes(nonce, 17, 1234, 55555, ext, 3600);
    let resp = pcp::Response::decode(&bytes).unwrap();
    let r = pcp::Mapping::new(
        Ipv4Address::new(192, 168, 1, 10),
        41641,
        Ipv4Address::new(192, 168, 1, 1),
        nonce,
        resp,
    );
    assert_eq!(r.unwrap_err(), pcp::Error::PortMissmatch);
}

#[test]
fn pcp_zero_external_port() {
    let nonce = [9u8; 12];
    let ext = Ipv4Address::new(203, 0, 113, 7).to_ipv6_mapped();
    let bytes = pcp_map_response_bytes(nonce, 17, 41641, 0, ext, 3600);
    let resp = pcp::Response::decode(&bytes).unwrap();
    let r = pcp::Mapping::new(
        Ipv4Address::new(192, 168, 1, 10),
        41641,
        Ipv4Address::new(192, 168, 1, 1),
        nonce,
        resp,
    );
    assert_eq!(r.unwrap_err(), pcp::Error::ZeroExternalPort);
}

#[test]
fn pcp_not_ipv4() {
    let nonce = [9u8; 12];
    let ext = Ipv6Address::new(0x2001, 0xdb8, 0, 0, 0, 0, 0, 1);
    let bytes = pcp_map_response_bytes(nonce, 17, 41641, 55555, ext, 3600);
    let resp = pcp::Response::decode(&bytes).unwrap();
    let r = pcp::Mapping::new(
        Ipv4Address::new(192, 168, 1, 10),
        41641,
        Ipv4Address::new(192, 168, 1, 1),
        nonce,
        resp,
    );
    assert_eq!(r.unwrap_err(), pcp::Error::NotIpv4);
}

#[test]
fn pcp_invalid_announce() {
    let nonce = [9u8; 12];
    let mut bytes = vec![2u8, 0x80, 0, 0];
    bytes.extend_from_slice(&be32(0));
    bytes.extend_from_slice(&be32(77));
    bytes.extend_from_slice(&[0u8; 12]);
    let resp = pcp::Response::decode(&bytes).unwrap();
    assert!(pcp::probe_available(Ok(resp)));
    let r = pcp::Mapping::new(
        Ipv4Address::new(192, 168, 1, 10),
        41641,
        Ipv4Address::new(192, 168, 1, 1),
        nonce,
        resp,
    );
    assert_eq!(r.unwrap_err(), pcp::Error::InvalidAnnounce);
}

#[test]
fn pcp_result_code_failure() {
    let mut bytes = vec![2u8, 0x81, 0, 3];
    bytes.extend_from_slice(&be32(0));
    bytes.extend_from_slice(&be32(77));
    bytes.extend_from_slice(&[0u8; 12]);
    let r = pcp::Response::decode(&bytes);
    assert_eq!(
        r.unwrap_err(),
        pcp::ProtocolError::NotSuccess { result_code: 3 }
    );
}

#[test]
fn pcp_fresh_request_fields() {
    // Whatever nonce was drawn, the other fields of a fresh map request
    // are fixed by the arguments.
    let a = pcp::make_map_request(41641, Ipv4Address::new(192, 168, 1, 10), None);
    match a {
        pcp::Request::Mapping {
            lifetime_seconds,
            protocol,
            local_port,
            external_port,
            ..
        } => {
            assert_eq!(lifetime_seconds, 3600);
            assert_eq!(protocol, 17);
            assert_eq!(local_port, 41641);
            assert_eq!(external_port, 0);
        }
        other => panic!("not a map request: {:?}", other),
    }
}
