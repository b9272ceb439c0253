//! The wire format of the control protocol.
//!
//! A packet is the magic `RIV`, one type byte, the background color as a
//! big-endian `u32`, the byte length of the image name as a big-endian `u16`,
//! and the UTF-8 bytes of the name.

use vstd::prelude::*;
use vstd::slice::slice_subrange;
use vstd::utf8::*;
use vstd::string::*;

verus! {

broadcast use {encode_utf8_valid_utf8, encode_utf8_decode_utf8};

/// Largest datagram the protocol ever sends or receives.
pub const MAX_PACKET_SIZE: usize = 4096;

/// Largest byte length of an image name.
pub const MAX_NAME_LENGTH: usize = MAX_PACKET_SIZE - 64;

/// Byte length of the fixed header that precedes the name.
pub const HEADER_LEN: usize = 10;

/// A request to display an image.
pub const CODE_DISPLAY: u8 = 0x64;

/// The responder is alive and still working on the request.
pub const CODE_ACK: u8 = 0x61;

/// The image was shown.
pub const CODE_OK: u8 = 0x6f;

/// The image could not be loaded.
pub const CODE_ERR: u8 = 0x65;

/// The four known type bytes: `d`, `a`, `o` and `e`.
pub open spec fn is_code(c: u8) -> bool {
    c == CODE_DISPLAY || c == CODE_ACK || c == CODE_OK || c == CODE_ERR
}

/// Big-endian bytes of a `u32`.
pub open spec fn be32(v: u32) -> Seq<u8> {
    seq![(v >> 24u32) as u8, (v >> 16u32) as u8, (v >> 8u32) as u8, v as u8]
}

/// Big-endian bytes of a `u16`.
pub open spec fn be16(v: u16) -> Seq<u8> {
    seq![(v >> 8u16) as u8, v as u8]
}

/// The `u32` whose big-endian bytes are `a, b, c, d`.
pub open spec fn u32_from_be(a: u8, b: u8, c: u8, d: u8) -> u32 {
    ((a as u32) << 24u32) | ((b as u32) << 16u32) | ((c as u32) << 8u32) | (d as u32)
}

/// The `u16` whose big-endian bytes are `a, b`.
pub open spec fn u16_from_be(a: u8, b: u8) -> u16 {
    ((a as u16) << 8u16) | (b as u16)
}

/// The four leading bytes of a packet of the given type.
pub open spec fn magic(code: u8) -> Seq<u8> {
    seq![0x52u8, 0x49u8, 0x56u8, code]
}

/// What a packet carries.
pub struct PacketModel {
    pub code: u8,
    pub color: u32,
    pub name: Seq<char>,
}

impl PacketModel {
    /// A known type and a name that fits.
    pub open spec fn valid(self) -> bool {
        is_code(self.code) && encode_utf8(self.name).len() <= MAX_NAME_LENGTH
    }

    /// The bytes on the wire.
    pub open spec fn bytes(self) -> Seq<u8> {
        encoding(self.code, self.color, self.name)
    }
}

/// The bytes of a packet of type `code`, background `color` and image `name`.
pub open spec fn encoding(code: u8, color: u32, name: Seq<char>) -> Seq<u8> {
    magic(code) + be32(color) + be16(encode_utf8(name).len() as u16) + encode_utf8(name)
}

/// Why a datagram is not a packet.
#[derive(PartialEq, Eq, Structural, Clone, Copy, Debug)]
pub enum DecodeError {
    /// Shorter than the fixed header.
    TooShort,
    /// The first four bytes are not `RIV` and a known type.
    BadMagic,
    /// The declared name length exceeds the bytes that follow, or the limit.
    BadNameLength,
    /// The name is not UTF-8.
    InvalidUtf8,
}

impl DecodeError {
    /// A short human-readable description.
    pub fn message(&self) -> (r: &'static str) {
        match self {
            DecodeError::TooShort => "packet too short",
            DecodeError::BadMagic => "invalid packet magic",
            DecodeError::BadNameLength => "wrong packet file name size",
            DecodeError::InvalidUtf8 => "can't decode UTF-8",
        }
    }
}

/// Why a packet cannot be built.
#[derive(PartialEq, Eq, Structural, Clone, Copy, Debug)]
pub enum EncodeError {
    /// The name takes more than `MAX_NAME_LENGTH` bytes.
    NameTooLong,
}

impl EncodeError {
    /// A short human-readable description.
    pub fn message(&self) -> (r: &'static str) {
        "name is too long to encode in a packet"
    }
}

/// The first four bytes are `RIV` and a known type.
pub open spec fn has_magic(data: Seq<u8>) -> bool {
    data[0] == 0x52u8 && data[1] == 0x49u8 && data[2] == 0x56u8 && is_code(data[3])
}

/// Tells whether `c` is one of the four known type bytes.
pub fn is_known_code(c: u8) -> (r: bool)
    ensures
        r == is_code(c),
{
    c == CODE_DISPLAY || c == CODE_ACK || c == CODE_OK || c == CODE_ERR
}

/// The declared name length of a datagram of at least `HEADER_LEN` bytes.
pub open spec fn declared_len(data: Seq<u8>) -> int {
    u16_from_be(data[8], data[9]) as int
}

/// The name bytes of a datagram whose declared length fits.
pub open spec fn name_field(data: Seq<u8>) -> Seq<u8> {
    data.subrange(HEADER_LEN as int, HEADER_LEN + declared_len(data))
}

/// What a datagram decodes to. Bytes after the declared name are ignored.
pub open spec fn decoded(data: Seq<u8>) -> Result<PacketModel, DecodeError> {
    if data.len() < HEADER_LEN {
        Err(DecodeError::TooShort)
    } else if !has_magic(data) {
        Err(DecodeError::BadMagic)
    } else if declared_len(data) > data.len() - HEADER_LEN || declared_len(data) > MAX_NAME_LENGTH {
        Err(DecodeError::BadNameLength)
    } else if !valid_utf8(name_field(data)) {
        Err(DecodeError::InvalidUtf8)
    } else {
        Ok(
            PacketModel {
                code: data[3],
                color: u32_from_be(data[4], data[5], data[6], data[7]),
                name: decode_utf8(name_field(data)),
            },
        )
    }
}

/// Relies on `core::str::from_utf8`: it accepts exactly the valid UTF-8
/// byte sequences and returns a string with those bytes.
#[verifier::external_body]
fn str_from_utf8(v: &[u8]) -> (r: Option<&str>)
    ensures
        r is Some <==> valid_utf8(v@),
        r matches Some(s) ==> s.spec_bytes() == v@,
{
    core::str::from_utf8(v).ok()
}

/// A packet of the control protocol, held decoded.
pub struct RivPacket {
    code: u8,
    color: u32,
    name: String,
}

impl View for RivPacket {
    type V = PacketModel;

    closed spec fn view(&self) -> PacketModel {
        PacketModel { code: self.code, color: self.color, name: self.name@ }
    }
}

impl RivPacket {
    #[verifier::type_invariant]
    pub open spec fn inv(&self) -> bool {
        self@.valid()
    }

    /// A display request for `name` on background `color`.
    pub fn new(color: u32, name: &str) -> (r: Result<RivPacket, EncodeError>)
        ensures
            encode_utf8(name@).len() > MAX_NAME_LENGTH <==> r == Err::<RivPacket, EncodeError>(
                EncodeError::NameTooLong,
            ),
            r matches Ok(p) ==> p@ == (PacketModel { code: CODE_DISPLAY, color, name: name@ }),
    {
        RivPacket::with_code(CODE_DISPLAY, color, name)
    }

    /// A packet of type `code` for `name` on background `color`.
    pub fn with_code(code: u8, color: u32, name: &str) -> (r: Result<RivPacket, EncodeError>)
        requires
            is_code(code),
        ensures
            encode_utf8(name@).len() > MAX_NAME_LENGTH <==> r == Err::<RivPacket, EncodeError>(
                EncodeError::NameTooLong,
            ),
            r matches Ok(p) ==> p@ == (PacketModel { code, color, name: name@ }),
    {
        if name.as_bytes().len() > MAX_NAME_LENGTH {
            return Err(EncodeError::NameTooLong);
        }
        Ok(RivPacket { code, color, name: name.to_owned() })
    }

    /// The bytes on the wire.
    pub fn to_bytes(&self) -> (r: Vec<u8>)
        ensures
            r@ == self@.bytes(),
            r@.len() <= MAX_PACKET_SIZE,
    {
        proof {
            use_type_invariant(self);
        }
        let name = self.name.as_str().as_bytes();
        let n = name.len();
        let len = n as u16;
        let mut data: Vec<u8> = Vec::with_capacity(HEADER_LEN + n);
        data.push(0x52u8);
        data.push(0x49u8);
        data.push(0x56u8);
        data.push(self.code);
        data.push((self.color >> 24u32) as u8);
        data.push((self.color >> 16u32) as u8);
        data.push((self.color >> 8u32) as u8);
        data.push(self.color as u8);
        data.push((len >> 8u16) as u8);
        data.push(len as u8);
        let ghost head = data@;
        assert(head == magic(self.code) + be32(self.color) + be16(len));
        let mut i: usize = 0;
        while i < n
            invariant
                i <= n,
                n == name@.len(),
                data@ == head + name@.subrange(0, i as int),
            decreases n - i,
        {
            data.push(name[i]);
            i += 1;
            assert(name@.subrange(0, i as int) == name@.subrange(0, i - 1) + seq![name@[i - 1]]);
        }
        assert(name@.subrange(0, n as int) == name@);
        data
    }

    /// Decodes a datagram; anything malformed is refused, never trusted.
    pub fn from(data: &[u8]) -> (r: Result<RivPacket, DecodeError>)
        ensures
            decoded(data@) == match r {
                Ok(p) => Ok::<PacketModel, DecodeError>(p@),
                Err(e) => Err(e),
            },
    {
        if data.len() < HEADER_LEN {
            return Err(DecodeError::TooShort);
        }
        if !(data[0] == 0x52u8 && data[1] == 0x49u8 && data[2] == 0x56u8 && is_known_code(data[3])) {
            return Err(DecodeError::BadMagic);
        }
        let n = (((data[8] as u16) << 8u16) | (data[9] as u16)) as usize;
        if n > data.len() - HEADER_LEN || n > MAX_NAME_LENGTH {
            return Err(DecodeError::BadNameLength);
        }
        let bytes = slice_subrange(data, HEADER_LEN, HEADER_LEN + n);
        assert(bytes@ == name_field(data@));
        match str_from_utf8(bytes) {
            None => Err(DecodeError::InvalidUtf8),
            Some(s) => {
                let color = ((data[4] as u32) << 24u32) | ((data[5] as u32) << 16u32)
                    | ((data[6] as u32) << 8u32) | (data[7] as u32);
                let name = s.to_owned();
                assert(name@ == decode_utf8(bytes@));
                Ok(RivPacket { code: data[3], color, name })
            },
        }
    }

    /// The image name.
    pub fn name(&self) -> (r: &str)
        ensures
            r@ == self@.name,
    {
        self.name.as_str()
    }

    /// The background color; the low three bytes are red, green and blue.
    pub fn color(&self) -> (r: u32)
        ensures
            r == self@.color,
    {
        self.color
    }

    /// The type byte.
    pub fn code(&self) -> (r: u8)
        ensures
            r == self@.code,
            is_code(r),
    {
        proof {
            use_type_invariant(self);
        }
        self.code
    }

    /// Rewrites the type byte, as a responder does to turn a request into a reply.
    pub fn set_code(&mut self, code: u8)
        requires
            is_code(code),
        ensures
            final(self)@ == (PacketModel { code, ..old(self)@ }),
    {
        proof {
            use_type_invariant(&*self);
        }
        self.code = code;
    }

    /// A display request.
    pub fn is_display(&self) -> (r: bool)
        ensures
            r == (self@.code == CODE_DISPLAY),
    {
        self.code == CODE_DISPLAY
    }

    /// An acknowledgment.
    pub fn is_ack(&self) -> (r: bool)
        ensures
            r == (self@.code == CODE_ACK),
    {
        self.code == CODE_ACK
    }

    /// A success reply.
    pub fn is_ok(&self) -> (r: bool)
        ensures
            r == (self@.code == CODE_OK),
    {
        self.code == CODE_OK
    }

    /// The bytes on the wire, consuming the packet.
    pub fn into_inner(self) -> (r: Vec<u8>)
        ensures
            r@ == self@.bytes(),
    {
        self.to_bytes()
    }
}

proof fn lemma_be_round_trip(color: u32, n: u16)
    ensures
        u32_from_be(be32(color)[0], be32(color)[1], be32(color)[2], be32(color)[3]) == color,
        u16_from_be(be16(n)[0], be16(n)[1]) == n,
{
    let a = (color >> 24u32) as u8;
    let b = (color >> 16u32) as u8;
    let c = (color >> 8u32) as u8;
    let d = color as u8;
    assert(((a as u32) << 24u32) | ((b as u32) << 16u32) | ((c as u32) << 8u32) | (d as u32)
        == color) by (bit_vector)
        requires
            a == (color >> 24u32) as u8,
            b == (color >> 16u32) as u8,
            c == (color >> 8u32) as u8,
            d == color as u8,
    ;
    let h = (n >> 8u16) as u8;
    let l = n as u8;
    assert(((h as u16) << 8u16) | (l as u16) == n) by (bit_vector)
        requires
            h == (n >> 8u16) as u8,
            l == n as u8,
    ;
}

/// Decoding what was encoded gives back the type, the color and the name,
/// for every known type, every color and every name that fits.
pub proof fn lemma_round_trip(code: u8, color: u32, name: Seq<char>)
    requires
        is_code(code),
        encode_utf8(name).len() <= MAX_NAME_LENGTH,
    ensures
        decoded(encoding(code, color, name)) == Ok::<PacketModel, DecodeError>(
            PacketModel { code, color, name },
        ),
{
    let data = encoding(code, color, name);
    let bytes = encode_utf8(name);
    let n = bytes.len() as u16;
    lemma_be_round_trip(color, n);
    assert(data[8] == be16(n)[0] && data[9] == be16(n)[1]);
    assert(declared_len(data) == bytes.len());
    assert(name_field(data) == bytes);
}

/// Every datagram shorter than the header is refused as too short.
pub proof fn lemma_too_short(data: Seq<u8>)
    requires
        data.len() < HEADER_LEN,
    ensures
        decoded(data) == Err::<PacketModel, DecodeError>(DecodeError::TooShort),
{
}

/// Every datagram that holds a header and does not start with `RIVd`,
/// `RIVa`, `RIVo` or `RIVe` is refused for its magic.
pub proof fn lemma_bad_magic(data: Seq<u8>)
    requires
        data.len() >= HEADER_LEN,
        data.subrange(0, 4) != magic(CODE_DISPLAY),
        data.subrange(0, 4) != magic(CODE_ACK),
        data.subrange(0, 4) != magic(CODE_OK),
        data.subrange(0, 4) != magic(CODE_ERR),
    ensures
        decoded(data) == Err::<PacketModel, DecodeError>(DecodeError::BadMagic),
{
    if has_magic(data) {
        assert(data.subrange(0, 4) == magic(data[3]));
    }
}

} // verus!
