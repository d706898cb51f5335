//! Packet framing: every exchange with the sensor is a packet made of a
//! nine-byte header, the payload, and a two-byte checksum.
use vstd::prelude::*;

use crate::bytes::{be16, be32, from_be16, from_be32, u16_from_be, u16_to_be, u32_from_be, u32_to_be};
use crate::types::Pid;

verus! {

/// The magic number that starts every packet.
pub const HEADER_MAGIC: u16 = 0xEF01;

/// Number of bytes in a packet header.
pub const HEADER_LEN: usize = 9;

/// The header of a packet
#[derive(Debug, Clone, Copy, PartialEq, Eq, Structural)]
pub struct PackageHeader {
    pub header: u16,
    pub address: u32,
    pub pid: Pid,
    /// Number of payload bytes plus the two checksum bytes.
    pub length: u16,
}

impl PackageHeader {
    /// The nine bytes of the header on the wire: magic number, address, package
    /// identifier and length, numbers high byte first.
    pub open spec fn spec_bytes(self) -> Seq<u8> {
        be16(self.header) + be32(self.address) + seq![self.pid.spec_code()] + be16(self.length)
    }

    /// The header that the bytes `b` hold: `None` unless they are nine bytes
    /// whose seventh is a package identifier.
    pub open spec fn spec_parse(b: Seq<u8>) -> Option<PackageHeader> {
        if b.len() != 9 {
            None
        } else {
            match Pid::spec_from_code(b[6]) {
                None => None,
                Some(pid) => Some(
                    PackageHeader {
                        header: from_be16(b[0], b[1]),
                        address: from_be32(b[2], b[3], b[4], b[5]),
                        pid,
                        length: from_be16(b[7], b[8]),
                    },
                ),
            }
        }
    }

    /// The bytes of the header on the wire.
    pub fn as_bytes(&self) -> (r: Vec<u8>)
        ensures
            r@ == self.spec_bytes(),
    {
        let h = u16_to_be(self.header);
        let a = u32_to_be(self.address);
        let l = u16_to_be(self.length);
        let r = vec![h[0], h[1], a[0], a[1], a[2], a[3], self.pid.code(), l[0], l[1]];
        assert(r@ =~= self.spec_bytes());
        r
    }

    /// Reads a header from the bytes received from the sensor.
    pub fn parse(b: &[u8]) -> (r: Option<PackageHeader>)
        ensures
            r == Self::spec_parse(b@),
    {
        if b.len() != 9 {
            return None;
        }
        match Pid::from_code(b[6]) {
            None => None,
            Some(pid) => Some(
                PackageHeader {
                    header: u16_from_be(b[0], b[1]),
                    address: u32_from_be(b[2], b[3], b[4], b[5]),
                    pid,
                    length: u16_from_be(b[7], b[8]),
                },
            ),
        }
    }
}

/// Reading the bytes of a header gives the header back.
pub proof fn lemma_header_roundtrip(h: PackageHeader)
    ensures
        PackageHeader::spec_parse(h.spec_bytes()) == Some(h),
{
    let b = h.spec_bytes();
    crate::bytes::lemma_be16_roundtrip(h.header);
    crate::bytes::lemma_be32_roundtrip(h.address);
    crate::bytes::lemma_be16_roundtrip(h.length);
    crate::types::lemma_pid_code_roundtrip(h.pid, 0);
    assert(b[0] == be16(h.header)[0] && b[1] == be16(h.header)[1]);
    assert(b[2] == be32(h.address)[0] && b[3] == be32(h.address)[1]);
    assert(b[4] == be32(h.address)[2] && b[5] == be32(h.address)[3]);
    assert(b[6] == h.pid.spec_code());
    assert(b[7] == be16(h.length)[0] && b[8] == be16(h.length)[1]);
}

/// The layout of a header on the wire, and what reading nine bytes gives:
/// magic number in bytes 0 and 1, address in bytes 2 to 5, package
/// identifier in byte 6, length in bytes 7 and 8, numbers high byte first.
pub proof fn lemma_header_bytes(h: PackageHeader, b: Seq<u8>)
    ensures
        h.spec_bytes().len() == 9,
        h.spec_bytes()[0] * 256 + h.spec_bytes()[1] == h.header,
        h.spec_bytes()[2] * 0x100_0000 + h.spec_bytes()[3] * 0x1_0000 + h.spec_bytes()[4] * 256
            + h.spec_bytes()[5] == h.address,
        h.spec_bytes()[6] == h.pid.spec_code(),
        h.spec_bytes()[7] * 256 + h.spec_bytes()[8] == h.length,
        PackageHeader::spec_parse(b) is None <==> (b.len() != 9 || Pid::spec_from_code(b[6]) is None),
        PackageHeader::spec_parse(b) matches Some(g) ==> {
            &&& g.header == b[0] * 256 + b[1]
            &&& g.address == b[2] * 0x100_0000 + b[3] * 0x1_0000 + b[4] * 256 + b[5]
            &&& g.pid.spec_code() == b[6]
            &&& g.length == b[7] * 256 + b[8]
        },
{
    crate::bytes::lemma_be16_value(h.header, 0, 0);
    crate::bytes::lemma_be16_value(h.length, 0, 0);
    crate::bytes::lemma_be32_value(h.address, 0, 0, 0, 0);
    if b.len() == 9 {
        crate::bytes::lemma_be16_value(0, b[0], b[1]);
        crate::bytes::lemma_be16_value(0, b[7], b[8]);
        crate::bytes::lemma_be32_value(0, b[2], b[3], b[4], b[5]);
        crate::types::lemma_pid_code_roundtrip(Pid::Command, b[6]);
    }
}

/// The sum of all bytes of `data`.
pub open spec fn byte_sum(data: Seq<u8>) -> nat
    decreases data.len(),
{
    if data.len() == 0 {
        0
    } else {
        byte_sum(data.drop_last()) + data.last() as nat
    }
}

/// The checksum of a packet: the arithmetic sum of package identifier,
/// package length and all payload bytes, overflowing bits omitted.
pub open spec fn spec_checksum(pid: Pid, length: u16, data: Seq<u8>) -> u16 {
    ((pid.spec_code() + length + byte_sum(data)) % 0x1_0000) as u16
}

/// The length field of a packet with `n` payload bytes: payload plus the two
/// checksum bytes, overflowing bits omitted.
pub open spec fn spec_length_field(n: nat) -> u16 {
    ((n + 2) % 0x1_0000) as u16
}

/// A packet
#[derive(Debug)]
pub struct Package<'a> {
    pub pckg_header: PackageHeader,
    pub data: &'a [u8],
    /// The arithmetic sum of package identifier, package length and all package contents.
    /// Overflowing bits are omitted. High byte is transferred first.
    pub checksum: u16,
}

impl<'a> Package<'a> {
    /// The checksum that the packet's header and payload call for.
    pub open spec fn spec_expected_checksum(&self) -> u16 {
        spec_checksum(self.pckg_header.pid, self.pckg_header.length, self.data@)
    }

    /// The bytes that are sent for the packet: header, payload, and the
    /// checksum computed from them, high byte first.
    pub open spec fn spec_frame(&self) -> Seq<u8> {
        self.pckg_header.spec_bytes() + self.data@ + be16(self.spec_expected_checksum())
    }

    /// A packet of kind `pid` to the sensor at `address` carrying `data`, with
    /// its length and checksum filled in.
    pub fn new(pid: Pid, address: u32, data: &'a [u8]) -> (r: Self)
        ensures
            r.pckg_header == (PackageHeader {
                header: HEADER_MAGIC,
                address,
                pid,
                length: spec_length_field(data@.len()),
            }),
            r.data@ == data@,
            r.checksum == r.spec_expected_checksum(),
    {
        let n = data.len();
        let low = (n % 0x1_0000) as u16;
        let length = low.wrapping_add(2);
        assert(length == spec_length_field(n as nat)) by {
            assert((low + 2) % 0x1_0000 == (n + 2) % 0x1_0000);
        }
        let pckg_header = PackageHeader { header: HEADER_MAGIC, address, pid, length };
        let mut pckg = Package { pckg_header, data, checksum: 0 };
        pckg.checksum = pckg.generate_checksum();
        pckg
    }

    /// The checksum that the packet's header and payload call for.
    pub fn generate_checksum(&self) -> (r: u16)
        ensures
            r == self.spec_expected_checksum(),
    {
        let ghost pid = self.pckg_header.pid.spec_code() as int;
        let ghost length = self.pckg_header.length as int;
        let ghost data = self.data@;
        let mut checksum: u16 = 0;
        checksum = checksum.wrapping_add(self.pckg_header.pid.code() as u16);
        checksum = checksum.wrapping_add(self.pckg_header.length);
        assert(data.take(0) =~= Seq::<u8>::empty());
        let mut i: usize = 0;
        while i < self.data.len()
            invariant
                i <= data.len(),
                data == self.data@,
                checksum == (pid + length + byte_sum(data.take(i as int))) % 0x1_0000,
            decreases data.len() - i,
        {
            let d = self.data[i];
            let ghost before = checksum as int;
            checksum = checksum.wrapping_add(d as u16);
            assert(data.take(i + 1).drop_last() =~= data.take(i as int));
            assert(checksum == (before + d) % 0x1_0000);
            assert((before + d) % 0x1_0000 == (pid + length + byte_sum(data.take(i as int)) + d)
                % 0x1_0000) by {
                vstd::arithmetic::div_mod::lemma_add_mod_noop(
                    pid + length + byte_sum(data.take(i as int)),
                    d as int,
                    0x1_0000,
                );
            }
            i = i + 1;
        }
        assert(data.take(data.len() as int) =~= data);
        checksum
    }

    /// The bytes sent for the packet: header, payload and checksum.
    pub fn to_bytes(&self) -> (r: Vec<u8>)
        ensures
            r@ == self.spec_frame(),
    {
        let mut r = self.pckg_header.as_bytes();
        let mut i: usize = 0;
        while i < self.data.len()
            invariant
                i <= self.data@.len(),
                r@ == self.pckg_header.spec_bytes() + self.data@.take(i as int),
            decreases self.data@.len() - i,
        {
            r.push(self.data[i]);
            assert(self.data@.take(i + 1) =~= self.data@.take(i as int).push(self.data@[i as int]));
            i = i + 1;
        }
        assert(self.data@.take(self.data@.len() as int) =~= self.data@);
        let c = u16_to_be(self.generate_checksum());
        r.push(c[0]);
        r.push(c[1]);
        assert(r@ =~= self.spec_frame());
        r
    }
}

/// Whether the checksum that a received packet carries matches its header
/// and payload.
pub fn verify_checksum(pckg: &Package) -> (r: bool)
    ensures
        r == (pckg.checksum == pckg.spec_expected_checksum()),
{
    pckg.checksum == pckg.generate_checksum()
}

/// The checksum adds up: with no payload it is package identifier plus
/// length, and each further payload byte is added to it, overflowing bits
/// omitted.
pub proof fn lemma_checksum_sums(pid: Pid, length: u16, data: Seq<u8>, b: u8)
    ensures
        spec_checksum(pid, length, Seq::empty()) == (pid.spec_code() + length) % 0x1_0000,
        spec_checksum(pid, length, data.push(b)) == (spec_checksum(pid, length, data) + b)
            % 0x1_0000,
{
    assert(Seq::<u8>::empty().len() == 0);
    assert(data.push(b).drop_last() =~= data);
    assert(byte_sum(data.push(b)) == byte_sum(data) + b);
    vstd::arithmetic::div_mod::lemma_add_mod_noop(
        pid.spec_code() + length + byte_sum(data),
        b as int,
        0x1_0000,
    );
    vstd::arithmetic::div_mod::lemma_mod_twice(b as int, 0x1_0000);
    assert(((pid.spec_code() + length + byte_sum(data)) % 0x1_0000 + b) % 0x1_0000 == (
    pid.spec_code() + length + byte_sum(data) + b) % 0x1_0000) by {
        vstd::arithmetic::div_mod::lemma_add_mod_noop(
            pid.spec_code() + length + byte_sum(data),
            b as int,
            0x1_0000,
        );
        vstd::arithmetic::div_mod::lemma_small_mod(b as nat, 0x1_0000);
    }
}

/// The length field of a packet is its payload length plus the two checksum
/// bytes, as long as that fits sixteen bits.
pub proof fn lemma_length_field(n: nat)
    ensures
        n + 2 < 0x1_0000 ==> spec_length_field(n) == n + 2,
{
}

} // verus!
