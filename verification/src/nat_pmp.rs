//! NAT-PMP wire codec and mapping validation.
//!
//! Requests are 2 or 12 bytes, responses 12 or 16 bytes, all big-endian.
//! The network I/O around these values lives outside the crate; here a
//! mapping is validated from the decoded server responses alone.

use vstd::prelude::*;

use crate::ip::Ipv4Address;
use crate::wire::{be16, be32, lemma_be16_read16, lemma_be32_read32, push_u16_be, push_u32_be,
    read16, read32, read_u16_be, read_u32_be};

verus! {

/// UDP port NAT-PMP servers listen on.
pub const SERVER_PORT: u16 = 5351;

/// The NAT-PMP protocol version.
pub const VERSION: u8 = 0;

/// Recommended lifetime to request for a mapping: two hours.
pub const MAPPING_REQUESTED_LIFETIME_SECONDS: u32 = 7200;

/// Largest well-formed response (a port-map response).
pub const MAX_RESPONSE_SIZE: usize = 16;

/// Transport protocol of a requested mapping. Only UDP mappings are made.
#[derive(Clone, Copy, Debug, PartialEq, Eq, Structural)]
pub enum MapProtocol {
    Udp,
}

/// A NAT-PMP request.
#[derive(Clone, Copy, Debug, PartialEq, Eq, Structural)]
pub enum Request {
    /// Opcode 0: ask the gateway for its public IPv4 address.
    ExternalAddress,
    /// Opcode 1: map `local_port` over UDP, suggesting `external_port`
    /// (0 for no preference) for `lifetime_seconds`.
    Mapping { proto: MapProtocol, local_port: u16, external_port: u16, lifetime_seconds: u32 },
}

/// A NAT-PMP response with a success result code.
#[derive(Clone, Copy, Debug, PartialEq, Eq, Structural)]
pub enum Response {
    /// Opcode 0x80: the gateway's public IPv4 address.
    PublicAddress { epoch_time: u32, public_ip: Ipv4Address },
    /// Opcode 0x81: the established UDP mapping.
    PortMap {
        proto: MapProtocol,
        epoch_time: u32,
        private_port: u16,
        external_port: u16,
        lifetime_seconds: u32,
    },
}

/// A malformed or unsuccessful NAT-PMP message.
#[derive(Clone, Copy, Debug, PartialEq, Eq, Structural)]
pub enum ProtocolError {
    /// Fewer bytes than the shortest message of its kind.
    TooShort,
    /// First byte is not the NAT-PMP version.
    InvalidVersion { version: u8 },
    /// Opcode byte out of the known range.
    InvalidOpcode { opcode: u8 },
    /// Response result code was not success.
    NotSuccess { result_code: u16 },
}

/// Failure to obtain a NAT-PMP mapping.
#[derive(Clone, Copy, Debug, PartialEq, Eq, Structural)]
pub enum Error {
    /// The server answered something other than a success for our request.
    UnexpectedServerResponse,
    /// The server returned 0 as the external port.
    ZeroExternalPort,
    /// Socket-level failure; raised only by the I/O shell around the crate.
    Io,
    /// The remote did not answer within the receive window; raised only
    /// by the I/O shell around the crate.
    TimedOut,
    /// The response bytes did not decode.
    Protocol { source: ProtocolError },
}

/// The exact bytes of a request on the wire.
pub open spec fn spec_encode_request(r: Request) -> Seq<u8> {
    match r {
        Request::ExternalAddress => seq![VERSION, 0u8],
        Request::Mapping { proto, local_port, external_port, lifetime_seconds } => seq![
            VERSION,
            1u8,
        ] + be16(0) + be16(local_port) + be16(external_port) + be32(lifetime_seconds),
    }
}

/// The request a sequence of bytes holds, if any.
pub open spec fn spec_decode_request(b: Seq<u8>) -> Result<Request, ProtocolError> {
    if b.len() < 2 {
        Err(ProtocolError::TooShort)
    } else if b[0] != VERSION {
        Err(ProtocolError::InvalidVersion { version: b[0] })
    } else if b[1] == 0 {
        if b.len() == 2 {
            Ok(Request::ExternalAddress)
        } else {
            Err(ProtocolError::TooShort)
        }
    } else if b[1] == 1 {
        if b.len() == 12 {
            Ok(
                Request::Mapping {
                    proto: MapProtocol::Udp,
                    local_port: read16(b, 4),
                    external_port: read16(b, 6),
                    lifetime_seconds: read32(b, 8),
                },
            )
        } else {
            Err(ProtocolError::TooShort)
        }
    } else {
        Err(ProtocolError::InvalidOpcode { opcode: b[1] })
    }
}

/// The response a sequence of bytes holds, if any.
pub open spec fn spec_decode_response(b: Seq<u8>) -> Result<Response, ProtocolError> {
    if b.len() < 12 {
        Err(ProtocolError::TooShort)
    } else if b[0] != VERSION {
        Err(ProtocolError::InvalidVersion { version: b[0] })
    } else if read16(b, 2) != 0 {
        Err(ProtocolError::NotSuccess { result_code: read16(b, 2) })
    } else if b[1] == 0x80 {
        Ok(
            Response::PublicAddress {
                epoch_time: read32(b, 4),
                public_ip: Ipv4Address { o0: b[8], o1: b[9], o2: b[10], o3: b[11] },
            },
        )
    } else if b[1] == 0x81 {
        if b.len() >= 16 {
            Ok(
                Response::PortMap {
                    proto: MapProtocol::Udp,
                    epoch_time: read32(b, 4),
                    private_port: read16(b, 8),
                    external_port: read16(b, 10),
                    lifetime_seconds: read32(b, 12),
                },
            )
        } else {
            Err(ProtocolError::TooShort)
        }
    } else {
        Err(ProtocolError::InvalidOpcode { opcode: b[1] })
    }
}

impl Request {
    /// Encodes the request for sending.
    pub fn encode(&self) -> (out: Vec<u8>)
        ensures
            out@ == spec_encode_request(*self),
    {
        let mut out: Vec<u8> = Vec::new();
        match self {
            Request::ExternalAddress => {
                out.push(VERSION);
                out.push(0);
            },
            Request::Mapping { proto: _, local_port, external_port, lifetime_seconds } => {
                out.push(VERSION);
                out.push(1);
                push_u16_be(&mut out, 0);
                push_u16_be(&mut out, *local_port);
                push_u16_be(&mut out, *external_port);
                push_u32_be(&mut out, *lifetime_seconds);
            },
        }
        proof {
            assert(out@ =~= spec_encode_request(*self));
        }
        out
    }

    /// Decodes request bytes.
    pub fn decode(b: &[u8]) -> (r: Result<Request, ProtocolError>)
        ensures
            r == spec_decode_request(b@),
    {
        if b.len() < 2 {
            Err(ProtocolError::TooShort)
        } else if b[0] != VERSION {
            Err(ProtocolError::InvalidVersion { version: b[0] })
        } else if b[1] == 0 {
            if b.len() == 2 {
                Ok(Request::ExternalAddress)
            } else {
                Err(ProtocolError::TooShort)
            }
        } else if b[1] == 1 {
            if b.len() == 12 {
                Ok(
                    Request::Mapping {
                        proto: MapProtocol::Udp,
                        local_port: read_u16_be(b, 4),
                        external_port: read_u16_be(b, 6),
                        lifetime_seconds: read_u32_be(b, 8),
                    },
                )
            } else {
                Err(ProtocolError::TooShort)
            }
        } else {
            Err(ProtocolError::InvalidOpcode { opcode: b[1] })
        }
    }
}

impl Response {
    /// Decodes response bytes.
    pub fn decode(b: &[u8]) -> (r: Result<Response, ProtocolError>)
        ensures
            r == spec_decode_response(b@),
    {
        if b.len() < 12 {
            return Err(ProtocolError::TooShort);
        }
        if b[0] != VERSION {
            return Err(ProtocolError::InvalidVersion { version: b[0] });
        }
        let result_code = read_u16_be(b, 2);
        if result_code != 0 {
            return Err(ProtocolError::NotSuccess { result_code });
        }
        if b[1] == 0x80 {
            Ok(
                Response::PublicAddress {
                    epoch_time: read_u32_be(b, 4),
                    public_ip: Ipv4Address::new(b[8], b[9], b[10], b[11]),
                },
            )
        } else if b[1] == 0x81 {
            if b.len() >= 16 {
                Ok(
                    Response::PortMap {
                        proto: MapProtocol::Udp,
                        epoch_time: read_u32_be(b, 4),
                        private_port: read_u16_be(b, 8),
                        external_port: read_u16_be(b, 10),
                        lifetime_seconds: read_u32_be(b, 12),
                    },
                )
            } else {
                Err(ProtocolError::TooShort)
            }
        } else {
            Err(ProtocolError::InvalidOpcode { opcode: b[1] })
        }
    }
}

/// Every request decodes back from its own encoding.
pub proof fn lemma_request_round_trip(r: Request)
    ensures
        spec_decode_request(spec_encode_request(r)) == Ok::<Request, ProtocolError>(r),
{
    let b = spec_encode_request(r);
    match r {
        Request::ExternalAddress => {},
        Request::Mapping { proto, local_port, external_port, lifetime_seconds } => {
            assert(b.len() == 12);
            lemma_be16_read16(local_port, b, 4);
            lemma_be16_read16(external_port, b, 6);
            lemma_be32_read32(lifetime_seconds, b, 8);
        },
    }
}

/// A mapping successfully registered with a NAT-PMP server.
#[derive(Clone, Copy, Debug, PartialEq, Eq, Structural)]
pub struct Mapping {
    /// Local ip the mapping was created from.
    pub local_ip: Ipv4Address,
    /// Local port the mapping was created for.
    pub local_port: u16,
    /// Gateway the mapping is registered with.
    pub gateway: Ipv4Address,
    /// External port of the mapping.
    pub external_port: u16,
    /// External address of the mapping.
    pub external_addr: Ipv4Address,
    /// Time the server will keep the mapping, in seconds.
    pub lifetime_seconds: u32,
}

impl Mapping {
    /// Both ports of a registered mapping are nonzero.
    pub open spec fn well_formed(self) -> bool {
        self.local_port != 0 && self.external_port != 0
    }

    /// What `Mapping::new` returns for given responses: the validation
    /// the client performs on what the server sent back.
    pub open spec fn spec_new(
        local_ip: Ipv4Address,
        local_port: u16,
        gateway: Ipv4Address,
        map_response: Response,
        addr_response: Response,
    ) -> Result<Mapping, Error> {
        match map_response {
            Response::PortMap { proto, epoch_time, private_port, external_port, lifetime_seconds } => {
                if private_port != local_port {
                    Err(Error::UnexpectedServerResponse)
                } else if external_port == 0 {
                    Err(Error::ZeroExternalPort)
                } else {
                    match addr_response {
                        Response::PublicAddress { epoch_time, public_ip } => Ok(
                            Mapping {
                                local_ip,
                                local_port,
                                gateway,
                                external_port,
                                external_addr: public_ip,
                                lifetime_seconds,
                            },
                        ),
                        _ => Err(Error::UnexpectedServerResponse),
                    }
                }
            },
            _ => Err(Error::UnexpectedServerResponse),
        }
    }

    /// Validates the two server responses of a mapping exchange and
    /// builds the mapping.
    ///
    /// The map response must echo the local port (else the answer was for
    /// someone else's request) and must carry a nonzero external port; the
    /// second response must be the gateway's public address.
    pub fn new(
        local_ip: Ipv4Address,
        local_port: u16,
        gateway: Ipv4Address,
        map_response: Response,
        addr_response: Response,
    ) -> (r: Result<Mapping, Error>)
        requires
            local_port != 0,
        ensures
            r == Self::spec_new(local_ip, local_port, gateway, map_response, addr_response),
            r matches Ok(m) ==> m.well_formed() && m.local_ip == local_ip && m.local_port
                == local_port && m.gateway == gateway,
    {
        let (external_port, lifetime_seconds) = match map_response {
            Response::PortMap {
                proto: MapProtocol::Udp,
                epoch_time: _,
                private_port,
                external_port,
                lifetime_seconds,
            } if private_port == local_port => (external_port, lifetime_seconds),
            _ => {
                return Err(Error::UnexpectedServerResponse);
            },
        };
        if external_port == 0 {
            return Err(Error::ZeroExternalPort);
        }
        let external_addr = match addr_response {
            Response::PublicAddress { epoch_time: _, public_ip } => public_ip,
            _ => {
                return Err(Error::UnexpectedServerResponse);
            },
        };
        Ok(
            Mapping {
                local_ip,
                local_port,
                gateway,
                external_port,
                external_addr,
                lifetime_seconds,
            },
        )
    }

    /// Checks the first (map) response alone, as the client does before
    /// asking for the public address: the echoed port and the external
    /// port, yielding the latter with the granted lifetime.
    pub fn validate_map_response(local_port: u16, map_response: Response) -> (r: Result<
        (u16, u32),
        Error,
    >)
        requires
            local_port != 0,
        ensures
            match map_response {
                Response::PortMap { private_port, external_port, lifetime_seconds, .. } => {
                    if private_port != local_port {
                        r == Err::<(u16, u32), Error>(Error::UnexpectedServerResponse)
                    } else if external_port == 0 {
                        r == Err::<(u16, u32), Error>(Error::ZeroExternalPort)
                    } else {
                        r == Ok::<(u16, u32), Error>((external_port, lifetime_seconds))
                    }
                },
                _ => r == Err::<(u16, u32), Error>(Error::UnexpectedServerResponse),
            },
    {
        match map_response {
            Response::PortMap {
                proto: MapProtocol::Udp,
                epoch_time: _,
                private_port,
                external_port,
                lifetime_seconds,
            } => {
                if private_port != local_port {
                    Err(Error::UnexpectedServerResponse)
                } else if external_port == 0 {
                    Err(Error::ZeroExternalPort)
                } else {
                    Ok((external_port, lifetime_seconds))
                }
            },
            _ => Err(Error::UnexpectedServerResponse),
        }
    }

    /// The external address and port that reach this node.
    pub fn external(&self) -> (r: (Ipv4Address, u16))
        ensures
            r == (self.external_addr, self.external_port),
    {
        (self.external_addr, self.external_port)
    }

    /// Half the granted lifetime, in seconds: the renewal point.
    pub fn half_lifetime(&self) -> (r: u64)
        ensures
            r == self.lifetime_seconds / 2,
    {
        (self.lifetime_seconds / 2) as u64
    }

    /// The release request for this mapping: lifetime zero and external
    /// port zero, as the protocol demands for explicit deletion.
    pub fn release_request(&self) -> (r: Request)
        ensures
            r == (Request::Mapping {
                proto: MapProtocol::Udp,
                local_port: self.local_port,
                external_port: 0,
                lifetime_seconds: 0,
            }),
    {
        Request::Mapping {
            proto: MapProtocol::Udp,
            local_port: self.local_port,
            external_port: 0,
            lifetime_seconds: 0,
        }
    }
}

/// Whether a probe response shows a NAT-PMP server: only a public-address
/// answer counts.
pub open spec fn spec_probe_response_available(r: Result<Response, ProtocolError>) -> bool {
    match r {
        Ok(Response::PublicAddress { .. }) => true,
        _ => false,
    }
}

/// Decides NAT-PMP availability from the decoded probe answer (the probe
/// sends an external-address request).
pub fn probe_available(response: Result<Response, ProtocolError>) -> (r: bool)
    ensures
        r == spec_probe_response_available(response),
{
    match response {
        Ok(Response::PublicAddress { .. }) => true,
        _ => false,
    }
}

} // verus!
