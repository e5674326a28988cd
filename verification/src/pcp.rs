//! PCP (Port Control Protocol, version 2) wire codec and mapping
//! validation.
//!
//! A map request carries a client-chosen 12-byte nonce; the response must
//! echo it, along with the transport protocol and the internal port, for
//! the mapping to be accepted. The network I/O around these values lives
//! outside the crate.

use vstd::prelude::*;

use crate::ip::{read_v6, read_v6_at, v6_bytes, push_v6_bytes, lemma_v6_bytes_read, Ipv4Address,
    Ipv6Address};
use crate::wire::{be16, be32, lemma_be16_read16, lemma_be32_read32, push_u16_be, push_u32_be,
    read16, read32, read_u16_be, read_u32_be};

verus! {

broadcast use vstd::array::group_array_axioms;

/// UDP port PCP servers listen on.
pub const SERVER_PORT: u16 = 5351;

/// The PCP protocol version.
pub const VERSION: u8 = 2;

/// The IANA number for UDP, the only transport mapped here.
pub const PROTOCOL_UDP: u8 = 17;

/// Lifetime to request for a mapping: one hour.
pub const MAPPING_REQUESTED_LIFETIME_SECONDS: u32 = 3600;

/// Largest response the client reads: a 24-byte header followed by
/// 36 bytes of map data.
pub const MAX_RESPONSE_SIZE: usize = 60;

/// The per-opcode payload of a response.
#[derive(Clone, Copy, Debug)]
pub enum OpcodeData {
    /// An announce response carries no payload.
    Announce,
    /// A map response echoes the map request's fields.
    MapData(MapData),
}

/// Payload of a map response.
#[derive(Clone, Copy, Debug)]
pub struct MapData {
    /// The nonce the server saw.
    pub nonce: [u8; 12],
    /// The transport protocol mapped (17 for UDP).
    pub protocol: u8,
    /// The internal port the server mapped.
    pub local_port: u16,
    /// The external port assigned.
    pub external_port: u16,
    /// The external address assigned, IPv4-mapped for IPv4.
    pub external_address: Ipv6Address,
}

/// A PCP request.
#[derive(Clone, Copy, Debug)]
pub enum Request {
    /// Opcode 0: announce, used to probe for a PCP server.
    Announce { client_addr: Ipv6Address },
    /// Opcode 1: map `local_port` for `lifetime_seconds`, optionally
    /// suggesting an external address and port (zeros for no preference).
    Mapping {
        lifetime_seconds: u32,
        client_addr: Ipv6Address,
        nonce: [u8; 12],
        protocol: u8,
        local_port: u16,
        external_port: u16,
        external_address: Ipv6Address,
    },
}

/// A PCP response with a success result code.
#[derive(Clone, Copy, Debug)]
pub struct Response {
    /// Seconds the server grants for the mapping.
    pub lifetime_seconds: u32,
    /// The server's epoch time.
    pub epoch_time: u32,
    /// The opcode-specific payload.
    pub data: OpcodeData,
}

/// A malformed or unsuccessful PCP message.
#[derive(Clone, Copy, Debug, PartialEq, Eq, Structural)]
pub enum ProtocolError {
    /// Fewer bytes than the shortest message of its kind.
    TooShort,
    /// First byte is not the PCP version.
    InvalidVersion { version: u8 },
    /// Opcode byte out of the known range.
    InvalidOpcode { opcode: u8 },
    /// Response result code was not success.
    NotSuccess { result_code: u8 },
}

/// Failure to obtain a PCP mapping.
#[derive(Clone, Copy, Debug, PartialEq, Eq, Structural)]
pub enum Error {
    /// The echoed nonce does not match the request's.
    NonceMissmatch,
    /// The mapping returned is not for UDP.
    ProtocolMissmatch,
    /// The echoed internal port does not match the requested one.
    PortMissmatch,
    /// The server returned 0 as the external port.
    ZeroExternalPort,
    /// The external address is not an IPv4-mapped address.
    NotIpv4,
    /// An announce response arrived for a map request.
    InvalidAnnounce,
    /// Socket-level failure; raised only by the I/O shell around the crate.
    Io,
    /// The remote did not answer within the receive window; raised only
    /// by the I/O shell around the crate.
    TimedOut,
    /// The response bytes did not decode.
    Protocol { source: ProtocolError },
}

/// The exact bytes of a request on the wire: a 24-byte header and, for a
/// map request, 36 bytes of map data.
pub open spec fn spec_encode_request(r: Request) -> Seq<u8> {
    match r {
        Request::Announce { client_addr } => seq![VERSION, 0u8, 0u8, 0u8] + be32(0) + v6_bytes(
            client_addr,
        ),
        Request::Mapping {
            lifetime_seconds,
            client_addr,
            nonce,
            protocol,
            local_port,
            external_port,
            external_address,
        } => seq![VERSION, 1u8, 0u8, 0u8] + be32(lifetime_seconds) + v6_bytes(client_addr)
            + nonce@ + seq![protocol, 0u8, 0u8, 0u8] + be16(local_port) + be16(external_port)
            + v6_bytes(external_address),
    }
}

/// What decoding request bytes must yield. The nonce is pinned through
/// its bytes, which determines the whole result.
pub open spec fn spec_request_decodes_to(b: Seq<u8>, r: Result<Request, ProtocolError>) -> bool {
    if b.len() < 24 {
        r == Err::<Request, ProtocolError>(ProtocolError::TooShort)
    } else if b[0] != VERSION {
        r == Err::<Request, ProtocolError>(ProtocolError::InvalidVersion { version: b[0] })
    } else if b[1] == 0 {
        r == Ok::<Request, ProtocolError>(Request::Announce { client_addr: read_v6_at(b, 8) })
    } else if b[1] == 1 {
        if b.len() >= 60 {
            r matches Ok(
                Request::Mapping {
                    lifetime_seconds,
                    client_addr,
                    nonce,
                    protocol,
                    local_port,
                    external_port,
                    external_address,
                },
            ) && lifetime_seconds == read32(b, 4) && client_addr == read_v6_at(b, 8) && nonce@
                == b.subrange(24, 36) && protocol == b[36] && local_port == read16(b, 40)
                && external_port == read16(b, 42) && external_address == read_v6_at(b, 44)
        } else {
            r == Err::<Request, ProtocolError>(ProtocolError::TooShort)
        }
    } else {
        r == Err::<Request, ProtocolError>(ProtocolError::InvalidOpcode { opcode: b[1] })
    }
}

/// What decoding response bytes must yield.
pub open spec fn spec_response_decodes_to(b: Seq<u8>, r: Result<Response, ProtocolError>) -> bool {
    if b.len() < 24 {
        r == Err::<Response, ProtocolError>(ProtocolError::TooShort)
    } else if b[0] != VERSION {
        r == Err::<Response, ProtocolError>(ProtocolError::InvalidVersion { version: b[0] })
    } else if b[3] != 0 {
        r == Err::<Response, ProtocolError>(ProtocolError::NotSuccess { result_code: b[3] })
    } else if b[1] == 0x80 {
        r == Ok::<Response, ProtocolError>(
            Response {
                lifetime_seconds: read32(b, 4),
                epoch_time: read32(b, 8),
                data: OpcodeData::Announce,
            },
        )
    } else if b[1] == 0x81 {
        if b.len() >= 60 {
            r matches Ok(resp) && resp.lifetime_seconds == read32(b, 4) && resp.epoch_time
                == read32(b, 8) && (resp.data matches OpcodeData::MapData(md) && md.nonce@
                == b.subrange(24, 36) && md.protocol == b[36] && md.local_port == read16(b, 40)
                && md.external_port == read16(b, 42) && md.external_address == read_v6_at(b, 44))
        } else {
            r == Err::<Response, ProtocolError>(ProtocolError::TooShort)
        }
    } else {
        r == Err::<Response, ProtocolError>(ProtocolError::InvalidOpcode { opcode: b[1] })
    }
}

/// Copies the 12 nonce bytes at offset 24 into an array.
fn read_nonce(b: &[u8]) -> (r: [u8; 12])
    requires
        36 <= b@.len(),
    ensures
        r@ == b@.subrange(24, 36),
{
    let r: [u8; 12] = [
        b[24],
        b[25],
        b[26],
        b[27],
        b[28],
        b[29],
        b[30],
        b[31],
        b[32],
        b[33],
        b[34],
        b[35],
    ];
    proof {
        assert(r@ =~= b@.subrange(24, 36));
    }
    r
}

impl Request {
    /// A map request for `local_port` from `local_ip`, optionally
    /// suggesting a preferred external address and port, under `nonce`.
    pub fn mapping(
        nonce: [u8; 12],
        local_port: u16,
        local_ip: Ipv4Address,
        preferred_external_port: Option<u16>,
        preferred_external_address: Option<Ipv4Address>,
        lifetime_seconds: u32,
    ) -> (r: Request)
        ensures
            r matches Request::Mapping {
                lifetime_seconds: l,
                client_addr,
                nonce: n,
                protocol,
                local_port: lp,
                external_port: ep,
                external_address: _,
            } && l == lifetime_seconds && client_addr.spec_to_ipv4_mapped() == Some(local_ip)
                && n == nonce && protocol == PROTOCOL_UDP && lp == local_port && ep == (
            match preferred_external_port {
                Some(p) => p,
                None => 0,
            }),
    {
        let external_port = match preferred_external_port {
            Some(p) => p,
            None => 0,
        };
        let external_address = match preferred_external_address {
            Some(ip) => ip.to_ipv6_mapped(),
            None => Ipv6Address::new(0, 0, 0, 0, 0, 0, 0, 0),
        };
        Request::Mapping {
            lifetime_seconds,
            client_addr: local_ip.to_ipv6_mapped(),
            nonce,
            protocol: PROTOCOL_UDP,
            local_port,
            external_port,
            external_address,
        }
    }

    /// An announce request from the given (IPv6-mapped) client address.
    pub fn announce(client_addr: Ipv6Address) -> (r: Request)
        ensures
            r == (Request::Announce { client_addr }),
    {
        Request::Announce { client_addr }
    }

    /// Encodes the request for sending.
    pub fn encode(&self) -> (out: Vec<u8>)
        ensures
            out@ == spec_encode_request(*self),
    {
        let mut out: Vec<u8> = Vec::new();
        match self {
            Request::Announce { client_addr } => {
                out.push(VERSION);
                out.push(0);
                out.push(0);
                out.push(0);
                push_u32_be(&mut out, 0);
                push_v6_bytes(&mut out, client_addr);
            },
            Request::Mapping {
                lifetime_seconds,
                client_addr,
                nonce,
                protocol,
                local_port,
                external_port,
                external_address,
            } => {
                out.push(VERSION);
                out.push(1);
                out.push(0);
                out.push(0);
                push_u32_be(&mut out, *lifetime_seconds);
                push_v6_bytes(&mut out, client_addr);
                let mut i: usize = 0;
                while i < 12
                    invariant
                        i <= 12,
                        out@ == seq![VERSION, 1u8, 0u8, 0u8] + be32(*lifetime_seconds) + v6_bytes(
                            *client_addr,
                        ) + nonce@.subrange(0, i as int),
                    decreases 12 - i,
                {
                    out.push(nonce[i]);
                    i = i + 1;
                    proof {
                        assert(out@ =~= seq![VERSION, 1u8, 0u8, 0u8] + be32(*lifetime_seconds)
                            + v6_bytes(*client_addr) + nonce@.subrange(0, i as int));
                    }
                }
                proof {
                    assert(nonce@.subrange(0, 12) =~= nonce@);
                }
                out.push(*protocol);
                out.push(0);
                out.push(0);
                out.push(0);
                push_u16_be(&mut out, *local_port);
                push_u16_be(&mut out, *external_port);
                push_v6_bytes(&mut out, external_address);
            },
        }
        proof {
            assert(out@ =~= spec_encode_request(*self));
        }
        out
    }

    /// Decodes request bytes.
    pub fn decode(b: &[u8]) -> (r: Result<Request, ProtocolError>)
        ensures
            spec_request_decodes_to(b@, r),
    {
        if b.len() < 24 {
            Err(ProtocolError::TooShort)
        } else if b[0] != VERSION {
            Err(ProtocolError::InvalidVersion { version: b[0] })
        } else if b[1] == 0 {
            Ok(Request::Announce { client_addr: read_v6(b, 8) })
        } else if b[1] == 1 {
            if b.len() >= 60 {
                Ok(
                    Request::Mapping {
                        lifetime_seconds: read_u32_be(b, 4),
                        client_addr: read_v6(b, 8),
                        nonce: read_nonce(b),
                        protocol: b[36],
                        local_port: read_u16_be(b, 40),
                        external_port: read_u16_be(b, 42),
                        external_address: read_v6(b, 44),
                    },
                )
            } else {
                Err(ProtocolError::TooShort)
            }
        } else {
            Err(ProtocolError::InvalidOpcode { opcode: b[1] })
        }
    }
}

impl Response {
    /// Decodes response bytes.
    pub fn decode(b: &[u8]) -> (r: Result<Response, ProtocolError>)
        ensures
            spec_response_decodes_to(b@, r),
    {
        if b.len() < 24 {
            return Err(ProtocolError::TooShort);
        }
        if b[0] != VERSION {
            return Err(ProtocolError::InvalidVersion { version: b[0] });
        }
        if b[3] != 0 {
            return Err(ProtocolError::NotSuccess { result_code: b[3] });
        }
        if b[1] == 0x80 {
            Ok(
                Response {
                    lifetime_seconds: read_u32_be(b, 4),
                    epoch_time: read_u32_be(b, 8),
                    data: OpcodeData::Announce,
                },
            )
        } else if b[1] == 0x81 {
            if b.len() >= 60 {
                Ok(
                    Response {
                        lifetime_seconds: read_u32_be(b, 4),
                        epoch_time: read_u32_be(b, 8),
                        data: OpcodeData::MapData(
                            MapData {
                                nonce: read_nonce(b),
                                protocol: b[36],
                                local_port: read_u16_be(b, 40),
                                external_port: read_u16_be(b, 42),
                                external_address: read_v6(b, 44),
                            },
                        ),
                    },
                )
            } else {
                Err(ProtocolError::TooShort)
            }
        } else {
            Err(ProtocolError::InvalidOpcode { opcode: b[1] })
        }
    }
}

/// Field-wise equality of requests (the nonce compared as bytes).
pub open spec fn requests_equal(a: Request, b: Request) -> bool {
    match (a, b) {
        (Request::Announce { client_addr: ca }, Request::Announce { client_addr: cb }) => ca == cb,
        (
            Request::Mapping {
                lifetime_seconds: la,
                client_addr: ca,
                nonce: na,
                protocol: pa,
                local_port: lpa,
                external_port: epa,
                external_address: ea,
            },
            Request::Mapping {
                lifetime_seconds: lb,
                client_addr: cb,
                nonce: nb,
                protocol: pb,
                local_port: lpb,
                external_port: epb,
                external_address: eb,
            },
        ) => la == lb && ca == cb && na@ == nb@ && pa == pb && lpa == lpb && epa == epb && ea
            == eb,
        _ => false,
    }
}

/// Every request decodes back from its own encoding: whatever the decoder
/// yields for the encoded bytes is the request itself.
#[verifier::rlimit(100)]
pub proof fn lemma_request_round_trip(r: Request, d: Result<Request, ProtocolError>)
    requires
        spec_request_decodes_to(spec_encode_request(r), d),
    ensures
        d matches Ok(q) && requests_equal(q, r),
{
    let b = spec_encode_request(r);
    match r {
        Request::Announce { client_addr } => {
            assert(b.len() == 24);
            assert forall|i: int| 0 <= i < 16 implies b[8 + i] == v6_bytes(client_addr)[i] by {}
            lemma_v6_bytes_read(client_addr, b, 8);
        },
        Request::Mapping {
            lifetime_seconds,
            client_addr,
            nonce,
            protocol,
            local_port,
            external_port,
            external_address,
        } => {
            assert(b.len() == 60);
            lemma_be32_read32(lifetime_seconds, b, 4);
            assert forall|i: int| 0 <= i < 16 implies b[8 + i] == v6_bytes(client_addr)[i] by {}
            lemma_v6_bytes_read(client_addr, b, 8);
            assert(b.subrange(24, 36) =~= nonce@);
            assert(b[36] == protocol);
            lemma_be16_read16(local_port, b, 40);
            lemma_be16_read16(external_port, b, 42);
            assert forall|i: int| 0 <= i < 16 implies b[44 + i] == v6_bytes(external_address)[i]
            by {}
            lemma_v6_bytes_read(external_address, b, 44);
        },
    }
}

/// A mapping successfully registered with a PCP server.
#[derive(Clone, Copy, Debug)]
pub struct Mapping {
    /// Local ip the mapping was created from.
    pub local_ip: Ipv4Address,
    /// Local port the mapping was created for.
    pub local_port: u16,
    /// Gateway the mapping is registered with.
    pub gateway: Ipv4Address,
    /// External port of the mapping.
    pub external_port: u16,
    /// External address of the mapping.
    pub external_address: Ipv4Address,
    /// Time the server will keep the mapping, in seconds.
    pub lifetime_seconds: u32,
    /// The nonce of the mapping, reused to release it.
    pub nonce: [u8; 12],
}

impl Mapping {
    /// Both ports of a registered mapping are nonzero.
    pub open spec fn well_formed(self) -> bool {
        self.local_port != 0 && self.external_port != 0
    }

    /// What `Mapping::new` returns for a given response: the validation
    /// the client performs on what the server sent back, in order.
    pub open spec fn spec_new(
        local_ip: Ipv4Address,
        local_port: u16,
        gateway: Ipv4Address,
        nonce: [u8; 12],
        response: Response,
    ) -> Result<Mapping, Error> {
        match response.data {
            OpcodeData::MapData(md) => {
                if md.nonce@ != nonce@ {
                    Err(Error::NonceMissmatch)
                } else if md.protocol != PROTOCOL_UDP {
                    Err(Error::ProtocolMissmatch)
                } else if md.local_port != local_port {
                    Err(Error::PortMissmatch)
                } else if md.external_port == 0 {
                    Err(Error::ZeroExternalPort)
                } else {
                    match md.external_address.spec_to_ipv4_mapped() {
                        Some(v4) => Ok(
                            Mapping {
                                local_ip,
                                local_port,
                                gateway,
                                external_port: md.external_port,
                                external_address: v4,
                                lifetime_seconds: response.lifetime_seconds,
                                nonce,
                            },
                        ),
                        None => Err(Error::NotIpv4),
                    }
                }
            },
            OpcodeData::Announce => Err(Error::InvalidAnnounce),
        }
    }

    /// Validates the server's response to a map request sent under
    /// `nonce` and builds the mapping.
    ///
    /// The response must be a map response (not an announce), echo the
    /// nonce, be for UDP, echo the internal port, carry a nonzero external
    /// port, and give an IPv4-mapped external address.
    pub fn new(
        local_ip: Ipv4Address,
        local_port: u16,
        gateway: Ipv4Address,
        nonce: [u8; 12],
        response: Response,
    ) -> (r: Result<Mapping, Error>)
        requires
            local_port != 0,
        ensures
            r == Self::spec_new(local_ip, local_port, gateway, nonce, response),
            r matches Ok(m) ==> m.well_formed() && m.local_ip == local_ip && m.local_port
                == local_port && m.gateway == gateway && m.nonce == nonce,
    {
        match response.data {
            OpcodeData::MapData(md) => {
                if !nonce_eq(&md.nonce, &nonce) {
                    Err(Error::NonceMissmatch)
                } else if md.protocol != PROTOCOL_UDP {
                    Err(Error::ProtocolMissmatch)
                } else if md.local_port != local_port {
                    Err(Error::PortMissmatch)
                } else if md.external_port == 0 {
                    Err(Error::ZeroExternalPort)
                } else {
                    match md.external_address.to_ipv4_mapped() {
                        Some(v4) => Ok(
                            Mapping {
                                local_ip,
                                local_port,
                                gateway,
                                external_port: md.external_port,
                                external_address: v4,
                                lifetime_seconds: response.lifetime_seconds,
                                nonce,
                            },
                        ),
                        None => Err(Error::NotIpv4),
                    }
                }
            },
            OpcodeData::Announce => Err(Error::InvalidAnnounce),
        }
    }

    /// The external address and port that reach this node.
    pub fn external(&self) -> (r: (Ipv4Address, u16))
        ensures
            r == (self.external_address, self.external_port),
    {
        (self.external_address, self.external_port)
    }

    /// Half the granted lifetime, in seconds: the renewal point.
    pub fn half_lifetime(&self) -> (r: u64)
        ensures
            r == self.lifetime_seconds / 2,
    {
        (self.lifetime_seconds / 2) as u64
    }

    /// The release request for this mapping: the map request re-sent under
    /// the same nonce with lifetime zero and no preferred external address.
    pub fn release_request(&self) -> (r: Request)
        ensures
            r matches Request::Mapping {
                lifetime_seconds: l,
                client_addr,
                nonce: n,
                protocol,
                local_port: lp,
                external_port: ep,
                external_address: _,
            } && l == 0 && client_addr.spec_to_ipv4_mapped() == Some(self.local_ip) && n
                == self.nonce && protocol == PROTOCOL_UDP && lp == self.local_port && ep == 0,
    {
        Request::mapping(self.nonce, self.local_port, self.local_ip, None, None, 0)
    }
}

/// Compares two nonces byte for byte.
fn nonce_eq(a: &[u8; 12], b: &[u8; 12]) -> (r: bool)
    ensures
        r == (a@ == b@),
{
    let mut i: usize = 0;
    while i < 12
        invariant
            i <= 12,
            forall|j: int| 0 <= j < i ==> a@[j] == b@[j],
        decreases 12 - i,
    {
        if a[i] != b[i] {
            assert(a@[i as int] != b@[i as int]);
            return false;
        }
        i = i + 1;
    }
    proof {
        assert(a@ =~= b@);
    }
    true
}

/// Whether a probe response shows a PCP server: only an announce answer
/// counts.
pub open spec fn spec_probe_response_available(r: Result<Response, ProtocolError>) -> bool {
    match r {
        Ok(resp) => resp.data is Announce,
        _ => false,
    }
}

/// Decides PCP availability from the decoded probe answer (the probe
/// sends an announce request).
pub fn probe_available(response: Result<Response, ProtocolError>) -> (r: bool)
    ensures
        r == spec_probe_response_available(response),
{
    match response {
        Ok(Response { data: OpcodeData::Announce, .. }) => true,
        _ => false,
    }
}

/// Nonce binding: a map response whose nonce differs from the request's
/// is rejected with exactly `NonceMissmatch`.
pub proof fn lemma_nonce_binding(
    local_ip: Ipv4Address,
    local_port: u16,
    gateway: Ipv4Address,
    nonce: [u8; 12],
    response: Response,
)
    requires
        response.data matches OpcodeData::MapData(md) && md.nonce@ != nonce@,
    ensures
        Mapping::spec_new(local_ip, local_port, gateway, nonce, response) == Err::<Mapping, Error>(
            Error::NonceMissmatch,
        ),
{
}

/// Port echo: a map response that echoes a different internal port than
/// the one requested never yields a mapping.
pub proof fn lemma_port_echo(
    local_ip: Ipv4Address,
    local_port: u16,
    gateway: Ipv4Address,
    nonce: [u8; 12],
    response: Response,
)
    requires
        response.data matches OpcodeData::MapData(md) && md.local_port != local_port,
    ensures
        Mapping::spec_new(local_ip, local_port, gateway, nonce, response) is Err,
{
}

/// Zero external port: a map response carrying external port 0 under the
/// right nonce, protocol and port echo is rejected with exactly
/// `ZeroExternalPort`.
pub proof fn lemma_zero_external_port(
    local_ip: Ipv4Address,
    local_port: u16,
    gateway: Ipv4Address,
    nonce: [u8; 12],
    response: Response,
)
    requires
        response.data matches OpcodeData::MapData(md) && md.nonce@ == nonce@ && md.protocol
            == PROTOCOL_UDP && md.local_port == local_port && md.external_port == 0,
    ensures
        Mapping::spec_new(local_ip, local_port, gateway, nonce, response) == Err::<Mapping, Error>(
            Error::ZeroExternalPort,
        ),
{
}

} // verus!

verus! {

/// Relies on `rand::fill`: fills the nonce from the thread's random
/// generator. Nothing can be promised of the values drawn.
#[verifier::external_body]
fn random_nonce() -> [u8; 12] {
    let mut nonce = [0u8; 12];
    rand::fill(&mut nonce[..]);
    nonce
}

/// Builds the map request for a new mapping attempt: the requested
/// fields under a freshly drawn nonce, asking for the recommended
/// lifetime. The nonce is returned so the response can be validated
/// against it; whatever its value, the other fields are as given.
pub fn make_map_request(
    local_port: u16,
    local_ip: Ipv4Address,
    preferred_external_address: Option<(Ipv4Address, u16)>,
) -> (r: Request)
    ensures
        r matches Request::Mapping {
            lifetime_seconds,
            client_addr,
            nonce: _,
            protocol,
            local_port: lp,
            external_port: ep,
            external_address: _,
        } && lifetime_seconds == MAPPING_REQUESTED_LIFETIME_SECONDS
            && client_addr.spec_to_ipv4_mapped() == Some(local_ip) && protocol == PROTOCOL_UDP
            && lp == local_port && ep == (match preferred_external_address {
            Some((_, p)) => p,
            None => 0u16,
        }),
{
    let nonce = random_nonce();
    let (requested_port, requested_address) = match preferred_external_address {
        Some((ip, port)) => (Some(port), Some(ip)),
        None => (None, None),
    };
    Request::mapping(
        nonce,
        local_port,
        local_ip,
        requested_port,
        requested_address,
        MAPPING_REQUESTED_LIFETIME_SECONDS,
    )
}

} // verus!
