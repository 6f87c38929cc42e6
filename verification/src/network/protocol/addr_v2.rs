//! Node addresses in the format of the `addrv2` message.
//!
//! An entry holds, in this order: the time at which the node was last seen,
//! in four bytes; the services of the node, as a compact size; the
//! identifier of the network that the address belongs to, in one byte; the
//! length of the address, as a compact size; the address; and the port, in
//! two bytes.  This node reads the addresses of the IPv4 and the IPv6 network
//! and passes over all others.

use vstd::prelude::*;

use crate::chain::serialization::{DateTime32, MAX_PROTOCOL_MESSAGE_LEN};
use crate::network::meta_addr::{IpAddress, MetaAddr, PeerAddress};
use crate::network::protocol::bytes::{be_value, le_value, read_be_u128, read_be_u16, read_be_u32, read_le};
use crate::network::protocol::types::{PeerServices, NODE_NETWORK_BIT};

verus! {

/// The largest address that an entry may hold, in bytes.
pub const MAX_ADDR_V2_ADDR_SIZE: usize = 512;

/// The identifier of the IPv4 network.
pub const ADDR_V2_IPV4_NETWORK_ID: u8 = 0x01;

/// The identifier of the IPv6 network.
pub const ADDR_V2_IPV6_NETWORK_ID: u8 = 0x02;

/// The length of an IPv4 address in an entry, in bytes.
pub const ADDR_V2_IPV4_ADDR_SIZE: usize = 4;

/// The length of an IPv6 address in an entry, in bytes.
pub const ADDR_V2_IPV6_ADDR_SIZE: usize = 16;

/// The least number of bytes that an entry takes: four for the time, one
/// each for the services, the network and the length of an empty address,
/// two for the port.
pub const ADDR_V2_MIN_SIZE: usize = 4 + 1 + 1 + 1 + 0 + 2;

/// The largest number of entries that one message can hold.
pub const ADDR_V2_MAX_ALLOCATION: u64 = ((MAX_PROTOCOL_MESSAGE_LEN - 3) / ADDR_V2_MIN_SIZE) as u64;

/// Why bytes could not be read as a value of the wire format.
#[derive(Clone, Copy, Debug, PartialEq, Eq)]
pub enum SerializationError {
    /// The bytes end before the value does.
    Io,
    /// The bytes do not follow the format, for the reason given.
    Parse(&'static str),
}

/// A node address as an `addrv2` message holds it.
#[derive(Clone, Copy, Debug, PartialEq, Eq, Hash, Structural)]
pub enum AddrV2 {
    /// An address of the IPv4 or the IPv6 network.
    IpAddr {
        /// When the node was last seen, as the sender says.
        untrusted_last_seen: DateTime32,
        /// The services of the node, as the sender says.
        untrusted_services: PeerServices,
        /// The IP address of the node.
        ip: IpAddress,
        /// The port of the node.
        port: u16,
    },
    /// An address of a network that this node does not know.
    Unimplemented,
}

/// The fields of an entry as they stand in the bytes.
pub struct RawAddrV2 {
    pub time: u32,
    pub services: u64,
    pub network_id: u8,
    pub addr: Seq<u8>,
    pub port: u16,
}

/// The compact size that starts at `at`, and the position behind it.
///
/// A first byte below `0xfd` is the number itself.  The first bytes `0xfd`,
/// `0xfe` and `0xff` are followed by the number in two, four and eight
/// bytes, the least significant first; a number that a shorter form could
/// hold is not accepted in a longer one.
pub open spec fn compact_size_at(bytes: Seq<u8>, at: int) -> Result<(u64, int), SerializationError> {
    if at + 1 > bytes.len() {
        Err(SerializationError::Io)
    } else {
        let flag = bytes[at];
        let extra: int = if flag < 0xfd {
            0
        } else if flag == 0xfd {
            2
        } else if flag == 0xfe {
            4
        } else {
            8
        };
        if at + 1 + extra > bytes.len() {
            Err(SerializationError::Io)
        } else if extra == 0 {
            Ok((flag as u64, at + 1))
        } else {
            let value = le_value(bytes.subrange(at + 1, at + 1 + extra));
            let least: nat = if extra == 2 {
                0xfd
            } else if extra == 4 {
                0x1_0000
            } else {
                0x1_0000_0000
            };
            if value < least {
                Err(SerializationError::Parse("non-canonical CompactSize"))
            } else {
                Ok((value as u64, at + 1 + extra))
            }
        }
    }
}

/// The fields of the entry that starts at the front of `bytes`, and the
/// number of bytes that the entry takes.
pub open spec fn raw_addr_v2(bytes: Seq<u8>) -> Result<(RawAddrV2, int), SerializationError> {
    if bytes.len() < 4 {
        Err(SerializationError::Io)
    } else {
        match compact_size_at(bytes, 4) {
            Err(e) => Err(e),
            Ok((services, at_network)) => {
                if at_network + 1 > bytes.len() {
                    Err(SerializationError::Io)
                } else {
                    match compact_size_at(bytes, at_network + 1) {
                        Err(e) => Err(e),
                        Ok((addr_len, at_addr)) => {
                            if addr_len > MAX_PROTOCOL_MESSAGE_LEN {
                                Err(SerializationError::Parse("CompactSize larger than protocol message limit"))
                            } else if at_addr + addr_len + 2 > bytes.len() {
                                Err(SerializationError::Io)
                            } else {
                                Ok(
                                    (
                                        RawAddrV2 {
                                            time: le_value(bytes.subrange(0, 4)) as u32,
                                            services,
                                            network_id: bytes[at_network],
                                            addr: bytes.subrange(at_addr, at_addr + addr_len),
                                            port: be_value(
                                                bytes.subrange(at_addr + addr_len, at_addr + addr_len + 2),
                                            ) as u16,
                                        },
                                        at_addr + addr_len + 2,
                                    ),
                                )
                            }
                        },
                    }
                }
            },
        }
    }
}

/// What the fields of an entry mean.
///
/// An address of more than `MAX_ADDR_V2_ADDR_SIZE` bytes is an error, in any
/// network.  An IPv4 address has four bytes and an IPv6 address sixteen; any
/// other length is an error.  An address of any other network is passed over.
pub open spec fn interpreted(raw: RawAddrV2) -> Result<AddrV2, SerializationError> {
    if raw.addr.len() > MAX_ADDR_V2_ADDR_SIZE {
        Err(SerializationError::Parse("addr field longer than MAX_ADDR_V2_ADDR_SIZE in addrv2 message"))
    } else if raw.network_id == ADDR_V2_IPV4_NETWORK_ID {
        if raw.addr.len() != ADDR_V2_IPV4_ADDR_SIZE {
            Err(
                SerializationError::Parse(
                    "IPv4 field length did not match ADDR_V2_IPV4_ADDR_SIZE in addrv2 message",
                ),
            )
        } else {
            Ok(
                AddrV2::IpAddr {
                    untrusted_last_seen: DateTime32 { timestamp: raw.time },
                    untrusted_services: PeerServices { bits: raw.services & NODE_NETWORK_BIT },
                    ip: IpAddress::V4(be_value(raw.addr) as u32),
                    port: raw.port,
                },
            )
        }
    } else if raw.network_id == ADDR_V2_IPV6_NETWORK_ID {
        if raw.addr.len() != ADDR_V2_IPV6_ADDR_SIZE {
            Err(
                SerializationError::Parse(
                    "IPv6 field length did not match ADDR_V2_IPV6_ADDR_SIZE in addrv2 message",
                ),
            )
        } else {
            Ok(
                AddrV2::IpAddr {
                    untrusted_last_seen: DateTime32 { timestamp: raw.time },
                    untrusted_services: PeerServices { bits: raw.services & NODE_NETWORK_BIT },
                    ip: IpAddress::V6(be_value(raw.addr) as u128),
                    port: raw.port,
                },
            )
        }
    } else {
        Ok(AddrV2::Unimplemented)
    }
}

/// The entry at the front of `bytes`, and the number of bytes that it takes.
pub open spec fn parsed_addr_v2(bytes: Seq<u8>) -> Result<(AddrV2, int), SerializationError> {
    match raw_addr_v2(bytes) {
        Err(e) => Err(e),
        Ok((raw, consumed)) => match interpreted(raw) {
            Err(e) => Err(e),
            Ok(addr) => Ok((addr, consumed)),
        },
    }
}

/// The rules on the length of the address in an entry whose fields are all there.
///
/// An address of more than 512 bytes is turned down; so is an IPv4 or IPv6
/// address of another length than its network asks for.  An entry of an
/// unknown network is read to its end and comes out as `Unimplemented`.
pub proof fn law_addr_v2_lengths(bytes: Seq<u8>)
    requires
        raw_addr_v2(bytes).is_ok(),
    ensures
        ({
            let (raw, consumed) = raw_addr_v2(bytes).unwrap();
            let known = raw.network_id == ADDR_V2_IPV4_NETWORK_ID || raw.network_id == ADDR_V2_IPV6_NETWORK_ID;
            &&& raw.addr.len() > MAX_ADDR_V2_ADDR_SIZE ==> parsed_addr_v2(bytes).is_err()
            &&& raw.network_id == ADDR_V2_IPV4_NETWORK_ID && raw.addr.len() != ADDR_V2_IPV4_ADDR_SIZE
                ==> parsed_addr_v2(bytes).is_err()
            &&& raw.network_id == ADDR_V2_IPV6_NETWORK_ID && raw.addr.len() != ADDR_V2_IPV6_ADDR_SIZE
                ==> parsed_addr_v2(bytes).is_err()
            &&& !known && raw.addr.len() <= MAX_ADDR_V2_ADDR_SIZE ==> parsed_addr_v2(bytes) == Ok::<
                (AddrV2, int),
                SerializationError,
            >((AddrV2::Unimplemented, consumed))
            &&& ADDR_V2_MIN_SIZE <= consumed <= bytes.len()
        }),
{
}

/// Reads the compact size that starts at `at`.
pub(crate) fn read_compact_size(bytes: &[u8], at: usize) -> (read: Result<(u64, usize), SerializationError>)
    requires
        at <= bytes@.len(),
    ensures
        read matches Ok((value, next)) ==> compact_size_at(bytes@, at as int) == Ok::<
            (u64, int),
            SerializationError,
        >((value, next as int)) && at < next <= bytes@.len(),
        read matches Err(e) ==> compact_size_at(bytes@, at as int) == Err::<(u64, int), SerializationError>(e),
{
    if bytes.len() - at < 1 {
        return Err(SerializationError::Io);
    }
    let flag = bytes[at];
    if flag < 0xfd {
        return Ok((flag as u64, at + 1));
    }
    let extra: usize = if flag == 0xfd {
        2
    } else if flag == 0xfe {
        4
    } else {
        8
    };
    if bytes.len() - at - 1 < extra {
        return Err(SerializationError::Io);
    }
    let value = read_le(bytes, at + 1, extra);
    let least: u64 = if extra == 2 {
        0xfd
    } else if extra == 4 {
        0x1_0000
    } else {
        0x1_0000_0000
    };
    if value < least {
        Err(SerializationError::Parse("non-canonical CompactSize"))
    } else {
        Ok((value, at + 1 + extra))
    }
}

impl AddrV2 {
    /// Reads the entry at the front of `bytes`.  Returns the entry and the
    /// number of bytes that it takes.
    pub fn zcash_deserialize(bytes: &[u8]) -> (read: Result<(AddrV2, usize), SerializationError>)
        ensures
            read matches Ok((addr, consumed)) ==> parsed_addr_v2(bytes@) == Ok::<(AddrV2, int), SerializationError>(
                (addr, consumed as int),
            ),
            read matches Err(e) ==> parsed_addr_v2(bytes@) == Err::<(AddrV2, int), SerializationError>(e),
    {
        if bytes.len() < 4 {
            return Err(SerializationError::Io);
        }
        let untrusted_last_seen = DateTime32 { timestamp: read_le(bytes, 0, 4) as u32 };
        let (services, at_network) = match read_compact_size(bytes, 4) {
            Ok(read) => read,
            Err(e) => {
                return Err(e);
            },
        };
        let untrusted_services = PeerServices::from_bits_truncate(services);
        if bytes.len() - at_network < 1 {
            return Err(SerializationError::Io);
        }
        let network_id = bytes[at_network];
        let (addr_len, at_addr) = match read_compact_size(bytes, at_network + 1) {
            Ok(read) => read,
            Err(e) => {
                return Err(e);
            },
        };
        if addr_len > MAX_PROTOCOL_MESSAGE_LEN as u64 {
            return Err(SerializationError::Parse("CompactSize larger than protocol message limit"));
        }
        let addr_len = addr_len as usize;
        if bytes.len() - at_addr < addr_len || bytes.len() - at_addr - addr_len < 2 {
            return Err(SerializationError::Io);
        }
        let at_port = at_addr + addr_len;
        let port = read_be_u16(bytes, at_port);
        let consumed = at_port + 2;
        if addr_len > MAX_ADDR_V2_ADDR_SIZE {
            return Err(
                SerializationError::Parse("addr field longer than MAX_ADDR_V2_ADDR_SIZE in addrv2 message"),
            );
        }
        if network_id == ADDR_V2_IPV4_NETWORK_ID {
            if addr_len != ADDR_V2_IPV4_ADDR_SIZE {
                return Err(
                    SerializationError::Parse(
                        "IPv4 field length did not match ADDR_V2_IPV4_ADDR_SIZE in addrv2 message",
                    ),
                );
            }
            let ip = IpAddress::V4(read_be_u32(bytes, at_addr));
            Ok((AddrV2::IpAddr { untrusted_last_seen, untrusted_services, ip, port }, consumed))
        } else if network_id == ADDR_V2_IPV6_NETWORK_ID {
            if addr_len != ADDR_V2_IPV6_ADDR_SIZE {
                return Err(
                    SerializationError::Parse(
                        "IPv6 field length did not match ADDR_V2_IPV6_ADDR_SIZE in addrv2 message",
                    ),
                );
            }
            let ip = IpAddress::V6(read_be_u128(bytes, at_addr));
            Ok((AddrV2::IpAddr { untrusted_last_seen, untrusted_services, ip, port }, consumed))
        } else {
            Ok((AddrV2::Unimplemented, consumed))
        }
    }

    /// The address book entry that the address stands for, if it is an
    /// address that this node can use.
    pub fn into_meta_addr(self) -> (entry: Option<MetaAddr>)
        ensures
            self matches AddrV2::IpAddr { untrusted_last_seen, untrusted_services, ip, port } ==> entry == Some(
                MetaAddr {
                    addr: PeerAddress { ip, port },
                    services: untrusted_services,
                    untrusted_last_seen: Some(untrusted_last_seen),
                    last_response: None,
                    last_attempt: None,
                    last_failure: None,
                    last_connection_state: crate::network::meta_addr::PeerAddrState::NeverAttempted,
                },
            ),
            self is Unimplemented ==> entry.is_none(),
    {
        match self {
            AddrV2::IpAddr { untrusted_last_seen, untrusted_services, ip, port } => Some(
                MetaAddr::new_gossiped_meta_addr(PeerAddress { ip, port }, untrusted_services, untrusted_last_seen),
            ),
            AddrV2::Unimplemented => None,
        }
    }

    /// The largest number of entries that one message can hold.
    pub fn max_allocation() -> (most: u64)
        ensures
            most == ADDR_V2_MAX_ALLOCATION,
    {
        ADDR_V2_MAX_ALLOCATION
    }
}

} // verus!
