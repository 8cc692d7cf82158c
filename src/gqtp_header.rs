use crate::gqtp_request::GQTPError;
use byteorder::{BigEndian, ByteOrder};
use vstd::prelude::*;
use vstd::string::*;

verus! {

/// Protocol identifier carried in the first byte of every GQTP header.
pub const GQTP_MAGIC: u8 = 0xc7;

/// Size in bytes of a GQTP header.
pub const GQTP_HEADER_SIZE: usize = 24;

/// Largest query type that a response header may carry.
pub const MAX_QUERY_TYPE: u8 = 5;

/// Flag bit of a "head" fragment.
pub const FLAG_HEAD: u8 = 0x01;

/// Flag bit of a "tail" fragment.
pub const FLAG_TAIL: u8 = 0x02;

/// The unsigned integer that two bytes encode, most significant first.
pub open spec fn be16(b: Seq<u8>) -> int {
    b[0] * 256 + b[1]
}

/// The unsigned integer that four bytes encode, most significant first.
pub open spec fn be32(b: Seq<u8>) -> int {
    ((b[0] * 256 + b[1]) * 256 + b[2]) * 256 + b[3]
}

/// The two bytes of `n`, most significant first.
pub open spec fn be16_bytes(n: u16) -> Seq<u8> {
    seq![(n / 256) as u8, (n % 256) as u8]
}

/// The four bytes of `n`, most significant first.
pub open spec fn be32_bytes(n: u32) -> Seq<u8> {
    seq![(n / 0x100_0000) as u8, (n / 0x1_0000 % 256) as u8, (n / 256 % 256) as u8, (n % 256) as u8]
}

/// The query type field of a header.
pub open spec fn query_type_of(h: Seq<u8>) -> u8 {
    h[1]
}

/// The flags field of a header.
pub open spec fn flags_of(h: Seq<u8>) -> u8 {
    h[5]
}

/// The status field of a header.
pub open spec fn status_of(h: Seq<u8>) -> int {
    be16(h.subrange(6, 8))
}

/// The body size field of a header.
pub open spec fn body_size_of(h: Seq<u8>) -> int {
    be32(h.subrange(8, 12))
}

/// A request packet: its header, then the command bytes.
pub open spec fn request_packet(command: Seq<u8>) -> Seq<u8> {
    seq![GQTP_MAGIC, 0u8] + be16_bytes(0) + seq![0u8, FLAG_TAIL] + be16_bytes(0) + be32_bytes(
        command.len() as u32,
    ) + be32_bytes(0) + Seq::new(8, |i: int| 0u8) + command
}

/// What is wrong with a response header, if anything.
pub open spec fn header_fault(h: Seq<u8>) -> Option<GQTPError> {
    if h[0] != GQTP_MAGIC || query_type_of(h) > MAX_QUERY_TYPE {
        Some(GQTPError::InvalidProtocol)
    } else if flags_of(h) & FLAG_HEAD == 0 && flags_of(h) & FLAG_TAIL == 0 {
        Some(GQTPError::InvalidProtocol)
    } else if status_of(h) != 0 && status_of(h) != 1 {
        Some(GQTPError::StatusError(status_of(h) as u16))
    } else {
        None
    }
}

/// Relies on byteorder's `BigEndian::read_u16`: the first two bytes, most
/// significant first.
#[verifier::external_body]
fn read_be_u16(buf: &[u8]) -> (r: u16)
    requires
        buf@.len() >= 2,
    ensures
        r == be16(buf@),
{
    BigEndian::read_u16(buf)
}

/// Relies on byteorder's `BigEndian::read_u32`: the first four bytes, most
/// significant first.
#[verifier::external_body]
fn read_be_u32(buf: &[u8]) -> (r: u32)
    requires
        buf@.len() >= 4,
    ensures
        r == be32(buf@),
{
    BigEndian::read_u32(buf)
}

/// Relies on byteorder's `BigEndian::write_u16`: the two bytes of `n`, most
/// significant first.
#[verifier::external_body]
fn write_be_u16(n: u16) -> (r: [u8; 2])
    ensures
        r@ == be16_bytes(n),
{
    let mut buf = [0u8; 2];
    BigEndian::write_u16(&mut buf, n);
    buf
}

/// Relies on byteorder's `BigEndian::write_u32`: the four bytes of `n`, most
/// significant first.
#[verifier::external_body]
fn write_be_u32(n: u32) -> (r: [u8; 4])
    ensures
        r@ == be32_bytes(n),
{
    let mut buf = [0u8; 4];
    BigEndian::write_u32(&mut buf, n);
    buf
}

fn push_all(v: &mut Vec<u8>, bytes: &[u8])
    ensures
        final(v)@ == old(v)@ + bytes@,
{
    v.extend_from_slice(bytes);
    assert(final(v)@ =~= old(v)@ + bytes@);
}

/// The packet that sends `command`: a header with the magic byte, query type
/// 0, the "tail" flag and the command's byte length as body size, all other
/// fields zero; then the command's bytes.
///
/// A command longer than a body size can state is refused with
/// `InvalidBodySize`.
pub fn encode_request(command: &str) -> (r: Result<Vec<u8>, GQTPError>)
    ensures
        match r {
            Ok(packet) => {
                &&& command.spec_bytes().len() <= u32::MAX
                &&& packet@ == request_packet(command.spec_bytes())
                &&& body_size_of(packet@) == command.spec_bytes().len()
            },
            Err(e) => command.spec_bytes().len() > u32::MAX && e == GQTPError::InvalidBodySize,
        },
{
    let bytes = command.as_bytes();
    if bytes.len() > u32::MAX as usize {
        return Err(GQTPError::InvalidBodySize);
    }
    let mut packet: Vec<u8> = Vec::new();
    packet.push(GQTP_MAGIC);
    packet.push(0);
    push_all(&mut packet, &write_be_u16(0));
    packet.push(0);
    packet.push(FLAG_TAIL);
    push_all(&mut packet, &write_be_u16(0));
    push_all(&mut packet, &write_be_u32(bytes.len() as u32));
    push_all(&mut packet, &write_be_u32(0));
    let cas: [u8; 8] = [0u8; 8];
    push_all(&mut packet, &cas);
    push_all(&mut packet, bytes);
    assert(packet@ =~= request_packet(command.spec_bytes()));
    proof {
        lemma_request_declares_body_size(command.spec_bytes());
    }
    Ok(packet)
}

/// The fields of a response header that the client reads.
#[derive(Clone, Copy, Debug, PartialEq, Eq, Structural)]
pub struct ResponseHeader {
    pub query_type: u8,
    pub flags: u8,
    pub status: u16,
    pub body_size: u32,
}

/// Reads the first 24 bytes of `buf` as a response header.
///
/// A wrong magic byte, a query type above 5, or flags with neither the
/// "head" nor the "tail" bit give `InvalidProtocol`; then a status other
/// than 0 and 1 gives `StatusError(status)`.
pub fn parse_header(buf: &[u8]) -> (r: Result<ResponseHeader, GQTPError>)
    requires
        buf@.len() >= GQTP_HEADER_SIZE,
    ensures
        buf@[0] != GQTP_MAGIC ==> r == Err::<ResponseHeader, GQTPError>(GQTPError::InvalidProtocol),
        buf@[0] == GQTP_MAGIC && query_type_of(buf@) <= MAX_QUERY_TYPE && flags_of(buf@) & (
        FLAG_HEAD | FLAG_TAIL) != 0 && status_of(buf@) != 0 && status_of(buf@) != 1 ==> r == Err::<
            ResponseHeader,
            GQTPError,
        >(GQTPError::StatusError(status_of(buf@) as u16)),
        match header_fault(buf@) {
            Some(e) => r == Err::<ResponseHeader, GQTPError>(e),
            None => r == Ok::<ResponseHeader, GQTPError>(
                ResponseHeader {
                    query_type: query_type_of(buf@),
                    flags: flags_of(buf@),
                    status: status_of(buf@) as u16,
                    body_size: body_size_of(buf@) as u32,
                },
            ),
        },
{
    let magic = buf[0];
    let query_type = buf[1];
    if magic != GQTP_MAGIC || query_type > MAX_QUERY_TYPE {
        return Err(GQTPError::InvalidProtocol);
    }
    let flags = buf[5];
    assert(flags & (FLAG_HEAD | FLAG_TAIL) != 0 <==> !(flags & FLAG_HEAD == 0 && flags & FLAG_TAIL
        == 0)) by (bit_vector);
    if flags & FLAG_HEAD == 0 && flags & FLAG_TAIL == 0 {
        return Err(GQTPError::InvalidProtocol);
    }
    let status_bytes = vstd::slice::slice_subrange(buf, 6, 8);
    let status = read_be_u16(status_bytes);
    assert(status_bytes@ == buf@.subrange(6, 8));
    if status != 0 && status != 1 {
        return Err(GQTPError::StatusError(status));
    }
    let size_bytes = vstd::slice::slice_subrange(buf, 8, 12);
    let body_size = read_be_u32(size_bytes);
    Ok(ResponseHeader { query_type, flags, status, body_size })
}

} // verus!

verus! {

/// Four bytes written most significant first read back as the same integer.
pub proof fn lemma_be32_round_trip(n: u32)
    ensures
        be32(be32_bytes(n)) == n,
{
    let b = be32_bytes(n);
    let x = n as int;
    assert(b[0] == x / 0x100_0000);
    assert(b[1] == x / 0x1_0000 % 256);
    assert(b[2] == x / 256 % 256);
    assert(b[3] == x % 256);
    assert(((x / 0x100_0000 * 256 + x / 0x1_0000 % 256) * 256 + x / 256 % 256) * 256 + x % 256
        == x) by (nonlinear_arith)
        requires
            0 <= x < 0x1_0000_0000,
    ;
}

/// The packet that sends a command is framed as its receiver reads it: the
/// header passes the response checks, its body size is the command's byte
/// length, and the body is the command.
pub proof fn lemma_request_declares_body_size(command: Seq<u8>)
    requires
        command.len() <= u32::MAX,
    ensures
        request_packet(command).len() == GQTP_HEADER_SIZE + command.len(),
        body_size_of(request_packet(command)) == command.len(),
        header_fault(request_packet(command)) is None,
        request_packet(command).subrange(
            GQTP_HEADER_SIZE as int,
            GQTP_HEADER_SIZE + command.len(),
        ) == command,
{
    let p = request_packet(command);
    lemma_be32_round_trip(command.len() as u32);
    assert(p.subrange(8, 12) =~= be32_bytes(command.len() as u32));
    assert(p.subrange(6, 8) =~= be16_bytes(0));
    assert(FLAG_TAIL & FLAG_HEAD == 0 && FLAG_TAIL & FLAG_TAIL != 0) by (bit_vector);
    assert(p.subrange(24, 24 + command.len() as int) =~= command);
}

} // verus!
