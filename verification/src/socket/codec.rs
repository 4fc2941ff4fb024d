//! Byte encodings of what travels between caster and receivers: frames,
//! and the messages with which receivers join and leave. Both are bincode
//! encodings (bincode 1, fixed-width little-endian integers, lengths as
//! 64-bit integers), produced and read by the bincode crate.

use vstd::prelude::*;
use vstd::utf8::*;
use vstd::string::*;

verus! {

/// Little-endian bytes of `x`.
pub open spec fn le16(x: u16) -> Seq<u8> {
    seq![x as u8, (x >> 8u16) as u8]
}

/// Little-endian bytes of `x`.
pub open spec fn le32(x: u32) -> Seq<u8> {
    seq![x as u8, (x >> 8u32) as u8, (x >> 16u32) as u8, (x >> 24u32) as u8]
}

/// Little-endian bytes of `x`.
pub open spec fn le64(x: u64) -> Seq<u8> {
    seq![
        x as u8, (x >> 8u64) as u8, (x >> 16u64) as u8, (x >> 24u64) as u8,
        (x >> 32u64) as u8, (x >> 40u64) as u8, (x >> 48u64) as u8, (x >> 56u64) as u8,
    ]
}

/// The integer that the two little-endian bytes `b` stand for.
pub open spec fn le16_value(b: Seq<u8>) -> u16 {
    (b[0] as u16) | ((b[1] as u16) << 8u16)
}

/// The integer that the four little-endian bytes `b` stand for.
pub open spec fn le32_value(b: Seq<u8>) -> u32 {
    (b[0] as u32) | ((b[1] as u32) << 8u32) | ((b[2] as u32) << 16u32) | ((b[3] as u32) << 24u32)
}

/// The integer that the eight little-endian bytes `b` stand for.
pub open spec fn le64_value(b: Seq<u8>) -> u64 {
    (b[0] as u64) | ((b[1] as u64) << 8u64) | ((b[2] as u64) << 16u64) | ((b[3] as u64) << 24u64)
        | ((b[4] as u64) << 32u64) | ((b[5] as u64) << 40u64) | ((b[6] as u64) << 48u64)
        | ((b[7] as u64) << 56u64)
}

pub proof fn lemma_le16_roundtrip(x: u16)
    ensures
        le16_value(le16(x)) == x,
{
    let b0 = x as u8;
    let b1 = (x >> 8u16) as u8;
    assert((b0 as u16) | ((b1 as u16) << 8u16) == x) by (bit_vector)
        requires b0 == x as u8, b1 == (x >> 8u16) as u8;
}

pub proof fn lemma_le32_roundtrip(x: u32)
    ensures
        le32_value(le32(x)) == x,
{
    let b0 = x as u8;
    let b1 = (x >> 8u32) as u8;
    let b2 = (x >> 16u32) as u8;
    let b3 = (x >> 24u32) as u8;
    assert((b0 as u32) | ((b1 as u32) << 8u32) | ((b2 as u32) << 16u32) | ((b3 as u32) << 24u32) == x)
        by (bit_vector)
        requires
            b0 == x as u8,
            b1 == (x >> 8u32) as u8,
            b2 == (x >> 16u32) as u8,
            b3 == (x >> 24u32) as u8,
    ;
}

pub proof fn lemma_le64_roundtrip(x: u64)
    ensures
        le64_value(le64(x)) == x,
{
    let b0 = x as u8;
    let b1 = (x >> 8u64) as u8;
    let b2 = (x >> 16u64) as u8;
    let b3 = (x >> 24u64) as u8;
    let b4 = (x >> 32u64) as u8;
    let b5 = (x >> 40u64) as u8;
    let b6 = (x >> 48u64) as u8;
    let b7 = (x >> 56u64) as u8;
    assert((b0 as u64) | ((b1 as u64) << 8u64) | ((b2 as u64) << 16u64) | ((b3 as u64) << 24u64)
        | ((b4 as u64) << 32u64) | ((b5 as u64) << 40u64) | ((b6 as u64) << 48u64)
        | ((b7 as u64) << 56u64) == x) by (bit_vector)
        requires
            b0 == x as u8,
            b1 == (x >> 8u64) as u8,
            b2 == (x >> 16u64) as u8,
            b3 == (x >> 24u64) as u8,
            b4 == (x >> 32u64) as u8,
            b5 == (x >> 40u64) as u8,
            b6 == (x >> 48u64) as u8,
            b7 == (x >> 56u64) as u8,
    ;
}

// ---------------------------------------------------------------- frames

/// Encoding of a frame of `width` x `height` pixels with RGBA bytes `data`.
pub open spec fn image_wire(width: u32, height: u32, data: Seq<u8>) -> Seq<u8> {
    le32(width) + le32(height) + le64(data.len() as u64) + data
}

/// Length of the pixel data that an encoded frame announces.
pub open spec fn image_wire_data_len(b: Seq<u8>) -> int {
    le64_value(b.subrange(8, 16)) as int
}

/// The frame that bytes `b` decode to; bytes after it are ignored.
pub open spec fn image_from_wire(b: Seq<u8>) -> Option<(u32, u32, Seq<u8>)> {
    if b.len() >= 16 && image_wire_data_len(b) <= b.len() - 16 {
        Some((
            le32_value(b.subrange(0, 4)),
            le32_value(b.subrange(4, 8)),
            b.subrange(16, 16 + image_wire_data_len(b)),
        ))
    } else {
        None
    }
}

/// `bincode::serialize` (bincode 1) of the tuple `(width, height, data)`,
/// which encodes exactly as a struct with those three fields. The contract
/// claims that it succeeds and gives the two integers as 4 little-endian
/// bytes each, the length of `data` as 8 little-endian bytes, then `data`.
#[verifier::external_body]
fn bincode_serialize_image(width: u32, height: u32, data: &Vec<u8>) -> (bytes: Option<Vec<u8>>)
    ensures
        bytes is Some,
        bytes matches Some(b) ==> b@ == image_wire(width, height, data@),
{
    bincode::serialize(&(width, height, data)).ok()
}

/// `bincode::deserialize` (bincode 1, trailing bytes allowed) into the tuple
/// `(u32, u32, Vec<u8>)`. The contract claims that it succeeds exactly when
/// the two 4-byte integers, the 8-byte length and that many data bytes are
/// present, and that it then gives them back.
#[verifier::external_body]
fn bincode_deserialize_image(bytes: &[u8]) -> (decoded: Option<(u32, u32, Vec<u8>)>)
    ensures
        decoded is Some <==> image_from_wire(bytes@) is Some,
        decoded matches Some((w, h, d)) ==> image_from_wire(bytes@) == Some((w, h, d@)),
{
    bincode::deserialize::<(u32, u32, Vec<u8>)>(bytes).ok()
}

/// `data` with the four bytes of pixel `p` replaced by `color`.
pub open spec fn with_pixel(data: Seq<u8>, p: int, color: Seq<u8>) -> Seq<u8> {
    Seq::new(data.len(), |i: int| if 4 * p <= i < 4 * p + 4 { color[i - 4 * p] } else { data[i] })
}

/// The four bytes of pixel `p`.
pub open spec fn pixel_at(data: Seq<u8>, p: int) -> Seq<u8> {
    data.subrange(4 * p, 4 * p + 4)
}

/// A captured frame: its size in pixels and its RGBA bytes, row by row.
pub struct SerializableImage {
    width: u32,
    height: u32,
    data: Vec<u8>,
}

impl View for SerializableImage {
    type V = (u32, u32, Seq<u8>);

    closed spec fn view(&self) -> (u32, u32, Seq<u8>) {
        (self.width, self.height, self.data@)
    }
}

impl SerializableImage {
    pub fn new(width: u32, height: u32, data: Vec<u8>) -> (image: Self)
        ensures
            image@ == (width, height, data@),
    {
        SerializableImage { width, height, data }
    }

    pub fn width(&self) -> (w: u32)
        ensures
            w == self@.0,
    {
        self.width
    }

    pub fn height(&self) -> (h: u32)
        ensures
            h == self@.1,
    {
        self.height
    }

    pub fn data(&self) -> (d: &Vec<u8>)
        ensures
            d@ == self@.2,
    {
        &self.data
    }

    /// Sets the four bytes of pixel `index` (counted row by row) to `color`.
    pub fn set_pixel(&mut self, index: usize, color: [u8; 4])
        requires
            4 * index + 4 <= old(self)@.2.len(),
        ensures
            final(self)@ == (old(self)@.0, old(self)@.1, with_pixel(old(self)@.2, index as int, color@)),
    {
        let n = self.data.len();
        let base = 4 * index;
        self.data.set(base, color[0]);
        self.data.set(base + 1, color[1]);
        self.data.set(base + 2, color[2]);
        self.data.set(base + 3, color[3]);
        assert(self.data@ =~= with_pixel(old(self)@.2, index as int, color@));
    }

    /// Gives up the pixel bytes.
    pub fn into_data(self) -> (d: Vec<u8>)
        ensures
            d@ == self@.2,
    {
        self.data
    }

    /// The bytes that carry this frame to the receivers.
    pub fn to_bytes(&self) -> (bytes: Vec<u8>)
        ensures
            bytes@ == image_wire(self@.0, self@.1, self@.2),
    {
        match bincode_serialize_image(self.width, self.height, &self.data) {
            Some(b) => b,
            None => Vec::new(),
        }
    }

    /// The frame that received bytes stand for, if they stand for one.
    pub fn from_bytes(bytes: &[u8]) -> (image: Option<Self>)
        ensures
            match image {
                Some(img) => image_from_wire(bytes@) == Some(img@),
                None => image_from_wire(bytes@) is None,
            },
    {
        match bincode_deserialize_image(bytes) {
            Some((width, height, data)) => Some(SerializableImage { width, height, data }),
            None => None,
        }
    }
}

/// Decoding the encoding of a frame gives the frame back.
pub proof fn lemma_image_wire_roundtrip(width: u32, height: u32, data: Seq<u8>)
    requires
        data.len() <= u64::MAX,
    ensures
        image_from_wire(image_wire(width, height, data)) == Some((width, height, data)),
{
    let b = image_wire(width, height, data);
    assert(b.subrange(0, 4) =~= le32(width));
    assert(b.subrange(4, 8) =~= le32(height));
    assert(b.subrange(8, 16) =~= le64(data.len() as u64));
    lemma_le32_roundtrip(width);
    lemma_le32_roundtrip(height);
    lemma_le64_roundtrip(data.len() as u64);
    assert(b.subrange(16, 16 + data.len() as int) =~= data);
}

// ------------------------------------------------------ viewer messages

/// What a receiver asks of the caster.
#[derive(Clone, Copy, Debug, PartialEq, Eq, Structural)]
pub enum Action {
    Register,
    Disconnect,
}

/// Position of `action` among the variants, which is how it is encoded.
pub open spec fn action_index(action: Action) -> u32 {
    match action {
        Action::Register => 0,
        Action::Disconnect => 1,
    }
}

/// The variant at an encoded position, if there is one.
pub open spec fn action_at(index: u32) -> Option<Action> {
    if index == 0 {
        Some(Action::Register)
    } else if index == 1 {
        Some(Action::Disconnect)
    } else {
        None
    }
}

/// Encoding of a message from a receiver with address `ip` and `port`: the
/// length of the UTF-8 form of `ip` as 8 little-endian bytes, that UTF-8
/// form, the port as 2 little-endian bytes, the variant position as 4.
pub open spec fn registration_wire(ip: Seq<char>, port: u16, variant: u32) -> Seq<u8> {
    le64(encode_utf8(ip).len() as u64) + encode_utf8(ip) + le16(port) + le32(variant)
}

/// Length of the address that an encoded message announces.
pub open spec fn registration_ip_len(b: Seq<u8>) -> int {
    le64_value(b.subrange(0, 8)) as int
}

/// The fields that bytes `b` decode to, the variant still as its position;
/// bytes after them are ignored.
pub open spec fn registration_fields_from_wire(b: Seq<u8>) -> Option<(Seq<char>, u16, u32)> {
    let n = registration_ip_len(b);
    if b.len() >= 8 && n <= b.len() - 14 && valid_utf8(b.subrange(8, 8 + n)) {
        Some((
            decode_utf8(b.subrange(8, 8 + n)),
            le16_value(b.subrange(8 + n, 10 + n)),
            le32_value(b.subrange(10 + n, 14 + n)),
        ))
    } else {
        None
    }
}

/// The message that bytes `b` decode to.
pub open spec fn registration_from_wire(b: Seq<u8>) -> Option<(Seq<char>, u16, Action)> {
    match registration_fields_from_wire(b) {
        Some((ip, port, variant)) => match action_at(variant) {
            Some(action) => Some((ip, port, action)),
            None => None,
        },
        None => None,
    }
}

/// `bincode::serialize` (bincode 1) of the tuple `(ip, port, variant)`,
/// which encodes exactly as a struct with a string, a `u16` and a unit
/// enum. The contract claims that it succeeds and gives the string's UTF-8
/// length as 8 little-endian bytes, its UTF-8 bytes, then the two integers
/// little-endian.
#[verifier::external_body]
fn bincode_serialize_registration(ip: &str, port: u16, variant: u32) -> (bytes: Option<Vec<u8>>)
    ensures
        bytes is Some,
        bytes matches Some(b) ==> b@ == registration_wire(ip@, port, variant),
{
    bincode::serialize(&(ip, port, variant)).ok()
}

/// `bincode::deserialize` (bincode 1, trailing bytes allowed) into the tuple
/// `(String, u16, u32)`. The contract claims that it succeeds exactly when
/// the 8-byte length, that many bytes of valid UTF-8 and the two integers
/// are present, and that it then gives them back.
#[verifier::external_body]
fn bincode_deserialize_registration(bytes: &[u8]) -> (decoded: Option<(String, u16, u32)>)
    ensures
        decoded is Some <==> registration_fields_from_wire(bytes@) is Some,
        decoded matches Some((ip, port, variant)) ==> registration_fields_from_wire(bytes@) == Some((ip@, port, variant)),
{
    bincode::deserialize::<(String, u16, u32)>(bytes).ok()
}

/// A receiver's request to join or leave the caster's audience.
pub struct RegistrationMessage {
    pub ip: String,
    pub port: u16,
    pub action: Action,
}

impl RegistrationMessage {
    pub fn new(ip: String, port: u16, action: Action) -> (m: Self)
        ensures
            m.ip@ == ip@,
            m.port == port,
            m.action == action,
    {
        RegistrationMessage { ip, port, action }
    }

    /// The bytes of this message on the wire.
    pub fn to_bytes(&self) -> (bytes: Vec<u8>)
        ensures
            bytes@ == registration_wire(self.ip@, self.port, action_index(self.action)),
    {
        let variant: u32 = match self.action {
            Action::Register => 0,
            Action::Disconnect => 1,
        };
        match bincode_serialize_registration(self.ip.as_str(), self.port, variant) {
            Some(b) => b,
            None => Vec::new(),
        }
    }

    /// The message that received bytes stand for, if they stand for one.
    pub fn from_bytes(bytes: &[u8]) -> (m: Option<Self>)
        ensures
            match m {
                Some(msg) => registration_from_wire(bytes@) == Some((msg.ip@, msg.port, msg.action)),
                None => registration_from_wire(bytes@) is None,
            },
    {
        match bincode_deserialize_registration(bytes) {
            Some((ip, port, variant)) => {
                if variant == 0 {
                    Some(RegistrationMessage { ip, port, action: Action::Register })
                } else if variant == 1 {
                    Some(RegistrationMessage { ip, port, action: Action::Disconnect })
                } else {
                    None
                }
            },
            None => None,
        }
    }
}

/// Decoding the encoding of a message gives the message back.
pub proof fn lemma_registration_wire_roundtrip(ip: Seq<char>, port: u16, action: Action)
    requires
        encode_utf8(ip).len() <= u64::MAX,
    ensures
        registration_from_wire(registration_wire(ip, port, action_index(action))) == Some((ip, port, action)),
{
    let e = encode_utf8(ip);
    let n = e.len() as int;
    let b = registration_wire(ip, port, action_index(action));
    assert(b.subrange(0, 8) =~= le64(e.len() as u64));
    lemma_le64_roundtrip(e.len() as u64);
    assert(registration_ip_len(b) == n);
    assert(b.subrange(8, 8 + n) =~= e);
    encode_utf8_valid_utf8(ip);
    encode_utf8_decode_utf8(ip);
    assert(b.subrange(8 + n, 10 + n) =~= le16(port));
    lemma_le16_roundtrip(port);
    assert(b.subrange(10 + n, 14 + n) =~= le32(action_index(action)));
    lemma_le32_roundtrip(action_index(action));
}

} // verus!
