use vstd::prelude::*;
use crate::bytes::{be16, from_be16, push_all, push_u16, read_u16, same_bytes};
use crate::error::{STUNError, STUNErrorType, STUNStep};

verus! {

/// The fixed value that follows the length field of every header.
pub const STUN_5389_MAGIC_NUMBER_U32: u32 = 0x2112A442;

/// The most significant 16 bits of the magic cookie, the key of a port.
pub const STUN_5389_MAGIC_NUMBER_16MSB_U16: u16 = 0x2112;

/// A transport address: an IPv4 or IPv6 address, in network order, and a port.
#[derive(Debug, Clone, Copy, PartialEq, Eq)]
pub enum STUNSocketAddr {
    V4 { ip: [u8; 4], port: u16 },
    V6 { ip: [u8; 16], port: u16 },
}

/// The mathematical value of a transport address.
pub struct AddrModel {
    pub v6: bool,
    pub port: u16,
    pub ip: Seq<u8>,
}

impl View for STUNSocketAddr {
    type V = AddrModel;

    open spec fn view(&self) -> AddrModel {
        match self {
            STUNSocketAddr::V4 { ip, port } => AddrModel { v6: false, port: *port, ip: ip@ },
            STUNSocketAddr::V6 { ip, port } => AddrModel { v6: true, port: *port, ip: ip@ },
        }
    }
}

/// A model that some address has: four bytes for IPv4, sixteen for IPv6.
pub open spec fn addr_wf(m: AddrModel) -> bool {
    m.ip.len() == if m.v6 { 16nat } else { 4nat }
}

/// The magic cookie in network order.
pub open spec fn cookie_bytes() -> Seq<u8> {
    seq![0x21u8, 0x12u8, 0xA4u8, 0x42u8]
}

/// The family byte: 1 for IPv4, 2 for IPv6.
pub open spec fn family_byte(v6: bool) -> u8 {
    if v6 { 2u8 } else { 1u8 }
}

/// The wire value shared by MAPPED-ADDRESS and its relatives: a zero byte,
/// the family, the port and the address, all in network order.
pub open spec fn addr_bytes(m: AddrModel) -> Seq<u8> {
    seq![0u8, family_byte(m.v6)] + be16(m.port) + m.ip
}

/// The bytes an address is XORed with: the cookie, followed for IPv6 by the
/// transaction ID.
pub open spec fn xor_key(v6: bool, tid: Seq<u8>) -> Seq<u8> {
    if v6 { cookie_bytes() + tid } else { cookie_bytes() }
}

/// Byte-wise exclusive or.
pub open spec fn xor_seq(a: Seq<u8>, k: Seq<u8>) -> Seq<u8> {
    Seq::new(a.len(), |i: int| a[i] ^ k[i])
}

/// The obfuscation of XOR-MAPPED-ADDRESS: the port XOR the top of the cookie,
/// the address XOR the cookie (and, for IPv6, the transaction ID).
pub open spec fn xor_model(m: AddrModel, tid: Seq<u8>) -> AddrModel {
    AddrModel {
        v6: m.v6,
        port: m.port ^ 0x2112u16,
        ip: xor_seq(m.ip, xor_key(m.v6, tid)),
    }
}

/// What the bytes at `pos` hold as an address value. The zero byte in front
/// is checked only where `check_reserved` asks for it.
pub open spec fn parse_addr(b: Seq<u8>, pos: int, check_reserved: bool) -> Result<AddrModel, STUNErrorType> {
    if pos + 1 > b.len() {
        Err(STUNErrorType::ReadError)
    } else if check_reserved && b[pos] != 0 {
        Err(STUNErrorType::AttributeStructureMismatch)
    } else if pos + 2 > b.len() {
        Err(STUNErrorType::ReadError)
    } else if b[pos + 1] != 1 && b[pos + 1] != 2 {
        Err(STUNErrorType::AttributeStructureMismatch)
    } else {
        let v6 = b[pos + 1] == 2;
        let n: int = if v6 { 16 } else { 4 };
        if pos + 4 + n > b.len() {
            Err(STUNErrorType::ReadError)
        } else {
            Ok(AddrModel {
                v6,
                port: from_be16(b[pos + 2], b[pos + 3]),
                ip: b.subrange(pos + 4, pos + 4 + n),
            })
        }
    }
}

/// Every address has as many bytes as its family asks for.
pub proof fn lemma_addr_wf(a: STUNSocketAddr)
    ensures
        addr_wf(a@),
{
}

/// Appends the wire value of an address.
pub fn encode_address(a: &STUNSocketAddr, out: &mut Vec<u8>)
    ensures
        final(out)@ == old(out)@ + addr_bytes(a@),
{
    out.push(0u8);
    match a {
        STUNSocketAddr::V4 { ip, port } => {
            out.push(1u8);
            push_u16(out, *port);
            push_all(out, ip.as_slice());
        },
        STUNSocketAddr::V6 { ip, port } => {
            out.push(2u8);
            push_u16(out, *port);
            push_all(out, ip.as_slice());
        },
    }
    assert(out@ =~= old(out)@ + addr_bytes(a@));
}

/// Applies the XOR-MAPPED-ADDRESS obfuscation; it is its own inverse.
pub fn xor_address(a: &STUNSocketAddr, transaction_id: &[u8; 12]) -> (r: STUNSocketAddr)
    ensures
        r@ == xor_model(a@, transaction_id@),
{
    let port_key: u16 = STUN_5389_MAGIC_NUMBER_16MSB_U16;
    let mut key: [u8; 16] = [0u8; 16];
    key[0] = 0x21u8;
    key[1] = 0x12u8;
    key[2] = 0xA4u8;
    key[3] = 0x42u8;
    let mut j: usize = 0;
    while j < 12
        invariant
            0 <= j <= 12,
            key@.len() == 16,
            key@.subrange(0, 4) == cookie_bytes(),
            key@.subrange(4, 4 + j as int) == transaction_id@.subrange(0, j as int),
        decreases 12 - j,
    {
        key[4 + j] = transaction_id[j];
        j = j + 1;
        assert(key@.subrange(0, 4) =~= cookie_bytes());
        assert(key@.subrange(4, 4 + j as int) =~= transaction_id@.subrange(0, j as int));
    }
    assert(key@ =~= cookie_bytes() + transaction_id@) by {
        assert(key@.subrange(4, 16) =~= transaction_id@.subrange(0, 12));
        assert(transaction_id@.subrange(0, 12) =~= transaction_id@);
        assert(key@ =~= key@.subrange(0, 4) + key@.subrange(4, 16));
    }
    match a {
        STUNSocketAddr::V4 { ip, port } => {
            let mut x: [u8; 4] = *ip;
            let mut i: usize = 0;
            while i < 4
                invariant
                    0 <= i <= 4,
                    key@ == cookie_bytes() + transaction_id@,
                    forall|k: int| 0 <= k < i ==> x@[k] == ip@[k] ^ key@[k],
                    forall|k: int| i <= k < 4 ==> x@[k] == ip@[k],
                decreases 4 - i,
            {
                x[i] = ip[i] ^ key[i];
                i = i + 1;
            }
            let r = STUNSocketAddr::V4 { ip: x, port: *port ^ port_key };
            assert(r@.ip =~= xor_seq(ip@, xor_key(false, transaction_id@)));
            r
        },
        STUNSocketAddr::V6 { ip, port } => {
            let mut x: [u8; 16] = *ip;
            let mut i: usize = 0;
            while i < 16
                invariant
                    0 <= i <= 16,
                    forall|k: int| 0 <= k < i ==> x@[k] == ip@[k] ^ key@[k],
                    forall|k: int| i <= k < 16 ==> x@[k] == ip@[k],
                decreases 16 - i,
            {
                x[i] = ip[i] ^ key[i];
                i = i + 1;
            }
            let r = STUNSocketAddr::V6 { ip: x, port: *port ^ port_key };
            assert(r@.ip =~= xor_seq(ip@, xor_key(true, transaction_id@)));
            r
        },
    }
}

/// Reads an address value at `pos`.
pub fn decode_address(b: &[u8], pos: usize, check_reserved: bool) -> (r: Result<STUNSocketAddr, STUNError>)
    ensures
        match r {
            Ok(a) => parse_addr(b@, pos as int, check_reserved) == Ok::<AddrModel, STUNErrorType>(a@),
            Err(e) => parse_addr(b@, pos as int, check_reserved) == Err::<AddrModel, STUNErrorType>(e.error_type),
        },
{
    let n = b.len();
    if pos >= n {
        return Err(STUNError::with_text(STUNStep::STUNDecode, STUNErrorType::ReadError, "address value is cut short"));
    }
    if check_reserved && b[pos] != 0 {
        return Err(STUNError::with_text(STUNStep::STUNDecode, STUNErrorType::AttributeStructureMismatch, "address value does not start with a zero byte"));
    }
    if n - pos < 2 {
        return Err(STUNError::with_text(STUNStep::STUNDecode, STUNErrorType::ReadError, "address value is cut short"));
    }
    let family = b[pos + 1];
    if family != 1 && family != 2 {
        return Err(STUNError::with_text(STUNStep::STUNDecode, STUNErrorType::AttributeStructureMismatch, "unknown address family"));
    }
    let len: usize = if family == 2 { 16 } else { 4 };
    if n - pos < 4 + len {
        return Err(STUNError::with_text(STUNStep::STUNDecode, STUNErrorType::ReadError, "address value is cut short"));
    }
    let port = read_u16(b, pos + 2);
    if family == 1 {
        let mut ip: [u8; 4] = [0u8; 4];
        let mut i: usize = 0;
        while i < 4
            invariant
                0 <= i <= 4,
                pos + 8 <= n,
                n == b@.len(),
                forall|k: int| 0 <= k < i ==> ip@[k] == b@[pos + 4 + k],
            decreases 4 - i,
        {
            ip[i] = b[pos + 4 + i];
            i = i + 1;
        }
        let a = STUNSocketAddr::V4 { ip, port };
        assert(a@.ip =~= b@.subrange(pos + 4, pos + 8));
        Ok(a)
    } else {
        let mut ip: [u8; 16] = [0u8; 16];
        let mut i: usize = 0;
        while i < 16
            invariant
                0 <= i <= 16,
                pos + 20 <= n,
                n == b@.len(),
                forall|k: int| 0 <= k < i ==> ip@[k] == b@[pos + 4 + k],
            decreases 16 - i,
        {
            ip[i] = b[pos + 4 + i];
            i = i + 1;
        }
        let a = STUNSocketAddr::V6 { ip, port };
        assert(a@.ip =~= b@.subrange(pos + 4, pos + 20));
        Ok(a)
    }
}

/// Whether two addresses are the same address and port.
pub fn same_address(a: &STUNSocketAddr, b: &STUNSocketAddr) -> (r: bool)
    ensures
        r == (a@ == b@),
{
    match (a, b) {
        (STUNSocketAddr::V4 { ip: i1, port: p1 }, STUNSocketAddr::V4 { ip: i2, port: p2 }) => {
            *p1 == *p2 && same_bytes(i1.as_slice(), i2.as_slice())
        },
        (STUNSocketAddr::V6 { ip: i1, port: p1 }, STUNSocketAddr::V6 { ip: i2, port: p2 }) => {
            *p1 == *p2 && same_bytes(i1.as_slice(), i2.as_slice())
        },
        _ => false,
    }
}

} // verus!
