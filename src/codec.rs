//! Byte-level encoding and decoding of the bootloader's frames.
use vstd::prelude::*;
use vstd::arithmetic::div_mod::lemma_add_mod_noop;

verus! {

/// Sum of all bytes of `s`, as an unbounded natural number.
pub open spec fn byte_sum(s: Seq<u8>) -> nat
    decreases s.len(),
{
    if s.len() == 0 {
        0
    } else {
        byte_sum(s.drop_last()) + s.last() as nat
    }
}

/// The frame checksum: the byte sum truncated to 16 bits.
pub open spec fn checksum_of(s: Seq<u8>) -> u16 {
    (byte_sum(s) % 0x10000) as u16
}

/// Arithmetic sum of all bytes, truncated to 16 bits.
pub fn checksum(data: &[u8]) -> (r: u16)
    ensures
        r == checksum_of(data@),
{
    let mut sum: u16 = 0;
    let mut i: usize = 0;
    while i < data.len()
        invariant
            i <= data@.len(),
            sum as nat == byte_sum(data@.take(i as int)) % 0x10000,
        decreases data@.len() - i,
    {
        let b = data[i];
        proof {
            let prefix = data@.take(i as int + 1);
            assert(prefix.drop_last() =~= data@.take(i as int));
            lemma_add_mod_noop(byte_sum(data@.take(i as int)) as int, b as int, 0x10000);
        }
        sum = sum.wrapping_add(b as u16);
        i = i + 1;
    }
    assert(data@.take(data@.len() as int) =~= data@);
    sum
}

proof fn lemma_byte_sum_concat(a: Seq<u8>, b: Seq<u8>)
    ensures
        byte_sum(a + b) == byte_sum(a) + byte_sum(b),
    decreases b.len(),
{
    if b.len() == 0 {
        assert(a + b =~= a);
    } else {
        assert((a + b).drop_last() =~= a + b.drop_last());
        lemma_byte_sum_concat(a, b.drop_last());
    }
}

/// The checksum of a concatenation is the 16-bit sum of the checksums of its
/// parts.
pub proof fn lemma_checksum_concat(a: Seq<u8>, b: Seq<u8>)
    ensures
        checksum_of(a + b) as int == (checksum_of(a) as int + checksum_of(b) as int) % 0x10000,
{
    lemma_byte_sum_concat(a, b);
    lemma_add_mod_noop(byte_sum(a) as int, byte_sum(b) as int, 0x10000);
}

/// First byte of every bootloader command frame.
pub const DFU_MAGIC: u8 = 0xF3;

/// Opcode of a download request.
pub const DFU_DOWNLOAD: u8 = 0x01;

/// Largest payload a download request can announce in its 16-bit length field.
pub const MAX_PAYLOAD: usize = 0xFFFF;

/// What a download request carries: a bootloader command, sent as is, or a
/// block of firmware, sent encrypted.
#[derive(PartialEq, Eq, Structural, Clone, Copy, Debug)]
pub enum DownloadType {
    Command,
    Data,
}

impl DownloadType {
    /// Wire code of the download type.
    pub open spec fn spec_code(self) -> u16 {
        match self {
            DownloadType::Command => 0,
            DownloadType::Data => 2,
        }
    }

    /// Wire code of the download type.
    pub fn code(self) -> (r: u16)
        ensures
            r == self.spec_code(),
    {
        match self {
            DownloadType::Command => 0,
            DownloadType::Data => 2,
        }
    }

    /// The download type that a wire code stands for, if any.
    pub open spec fn spec_from_code(code: u16) -> Option<DownloadType> {
        if code == 0 {
            Some(DownloadType::Command)
        } else if code == 2 {
            Some(DownloadType::Data)
        } else {
            None
        }
    }
}

/// Little-endian encoding of a 16-bit value.
pub open spec fn le16(v: u16) -> Seq<u8> {
    seq![(v % 256) as u8, (v / 256) as u8]
}

/// Little-endian encoding of a 32-bit value.
pub open spec fn le32(v: u32) -> Seq<u8> {
    seq![(v % 256) as u8, ((v / 256) % 256) as u8, ((v / 65536) % 256) as u8, (v / 16777216) as u8]
}

/// Value of two bytes read little-endian.
pub open spec fn read_le16(lo: u8, hi: u8) -> u16 {
    (lo as int + 256 * hi as int) as u16
}

/// The 16-byte header announcing a payload of the given type: magic, opcode,
/// type code, checksum and length, the last three little-endian, then eight
/// zero bytes.
pub open spec fn request_header(t: DownloadType, payload: Seq<u8>) -> Seq<u8> {
    seq![DFU_MAGIC, DFU_DOWNLOAD] + le16(t.spec_code()) + le16(checksum_of(payload)) + le16(
        payload.len() as u16,
    ) + Seq::new(8, |i: int| 0u8)
}

fn push_le16(out: &mut Vec<u8>, v: u16)
    ensures
        final(out)@ == old(out)@ + le16(v),
{
    out.push((v % 256) as u8);
    out.push((v / 256) as u8);
}

/// Builds the header of a download request for `payload`.
pub fn build_download_request(download_type: DownloadType, payload: &[u8]) -> (r: Vec<u8>)
    requires
        payload@.len() <= MAX_PAYLOAD,
    ensures
        r@ == request_header(download_type, payload@),
        r@.len() == 16,
{
    let mut r: Vec<u8> = Vec::with_capacity(16);
    r.push(DFU_MAGIC);
    r.push(DFU_DOWNLOAD);
    push_le16(&mut r, download_type.code());
    push_le16(&mut r, checksum(payload));
    push_le16(&mut r, payload.len() as u16);
    let mut i: usize = 0;
    while i < 8
        invariant
            i <= 8,
            r@ == seq![DFU_MAGIC, DFU_DOWNLOAD] + le16(download_type.spec_code()) + le16(
                checksum_of(payload@),
            ) + le16(payload@.len() as u16) + Seq::new(i as nat, |j: int| 0u8),
        decreases 8 - i,
    {
        r.push(0);
        i = i + 1;
        assert(r@ =~= seq![DFU_MAGIC, DFU_DOWNLOAD] + le16(download_type.spec_code()) + le16(
            checksum_of(payload@),
        ) + le16(payload@.len() as u16) + Seq::new(i as nat, |j: int| 0u8));
    }
    r
}

/// The fields a download-request header announces.
#[derive(PartialEq, Eq, Structural, Clone, Copy, Debug)]
pub struct RequestFields {
    pub download_type: DownloadType,
    pub checksum: u16,
    pub length: u16,
}

/// The fields of a download-request header, if `h` is one.
pub open spec fn header_fields(h: Seq<u8>) -> Option<RequestFields> {
    if h.len() == 16 && h[0] == DFU_MAGIC && h[1] == DFU_DOWNLOAD {
        match DownloadType::spec_from_code(read_le16(h[2], h[3])) {
            Some(t) => Some(
                RequestFields {
                    download_type: t,
                    checksum: read_le16(h[4], h[5]),
                    length: read_le16(h[6], h[7]),
                },
            ),
            None => None,
        }
    } else {
        None
    }
}

/// Reads the announced type, checksum and length back from a download-request
/// header.
pub fn parse_download_request(header: &[u8]) -> (r: Option<RequestFields>)
    ensures
        r == header_fields(header@),
{
    if header.len() != 16 || header[0] != DFU_MAGIC || header[1] != DFU_DOWNLOAD {
        return None;
    }
    let code = (header[2] as u16) + 256 * (header[3] as u16);
    let download_type = if code == 0 {
        DownloadType::Command
    } else if code == 2 {
        DownloadType::Data
    } else {
        return None;
    };
    Some(
        RequestFields {
            download_type,
            checksum: (header[4] as u16) + 256 * (header[5] as u16),
            length: (header[6] as u16) + 256 * (header[7] as u16),
        },
    )
}

/// A download-request header announces exactly the type, checksum and length
/// of the payload it was built for.
pub proof fn lemma_request_header_round_trip(t: DownloadType, payload: Seq<u8>)
    requires
        payload.len() <= MAX_PAYLOAD,
    ensures
        header_fields(request_header(t, payload)) == Some(
            RequestFields {
                download_type: t,
                checksum: checksum_of(payload),
                length: payload.len() as u16,
            },
        ),
{
    let h = request_header(t, payload);
    assert(h.len() == 16);
    assert(h[0] == DFU_MAGIC && h[1] == DFU_DOWNLOAD);
    assert(read_le16(h[2], h[3]) == t.spec_code());
    assert(read_le16(h[4], h[5]) == checksum_of(payload));
    assert(read_le16(h[6], h[7]) == payload.len() as u16);
}

/// Bootloader command byte that erases the flash page at an address.
pub const ERASE_COMMAND: u8 = 0x41;

/// Bootloader command byte that sets the address of the next data block.
pub const SET_ADDRESS_COMMAND: u8 = 0x21;

fn address_command(op: u8, address: u32) -> (r: Vec<u8>)
    ensures
        r@ == seq![op] + le32(address),
{
    let mut r: Vec<u8> = Vec::with_capacity(5);
    r.push(op);
    r.push((address % 256) as u8);
    r.push(((address / 256) % 256) as u8);
    r.push(((address / 65536) % 256) as u8);
    r.push((address / 16777216) as u8);
    assert(r@ =~= seq![op] + le32(address));
    r
}

/// Payload of the command that erases the page at `address`.
pub fn erase_command(address: u32) -> (r: Vec<u8>)
    ensures
        r@ == seq![ERASE_COMMAND] + le32(address),
{
    address_command(ERASE_COMMAND, address)
}

/// Payload of the command that points the next data block at `address`.
pub fn set_address_command(address: u32) -> (r: Vec<u8>)
    ensures
        r@ == seq![SET_ADDRESS_COMMAND] + le32(address),
{
    address_command(SET_ADDRESS_COMMAND, address)
}

/// Frame that asks for the firmware version reply.
pub fn version_query() -> (r: Vec<u8>)
    ensures
        r@ == seq![0xF1u8, 0x80u8],
{
    vec![0xF1, 0x80]
}

/// Frame that asks for the reply carrying the device identifier.
pub fn identity_query() -> (r: Vec<u8>)
    ensures
        r@ == seq![DFU_MAGIC, 0x08u8],
{
    vec![DFU_MAGIC, 0x08]
}

/// Frame that asks for the current mode.
pub fn mode_query() -> (r: Vec<u8>)
    ensures
        r@ == seq![0xF5u8],
{
    vec![0xF5]
}

/// Frame that asks for the DFU status.
pub fn status_query() -> (r: Vec<u8>)
    ensures
        r@ == seq![DFU_MAGIC, 0x03u8, 0u8, 0u8, 0u8, 0u8, 0x06u8],
{
    vec![DFU_MAGIC, 0x03, 0, 0, 0, 0, 0x06]
}

/// Length of every reply the bootloader sends.
pub const REPLY_LEN: usize = 20;

/// Versions reported by the bootloader.
#[derive(PartialEq, Eq, Structural, Clone, Copy, Debug)]
pub struct VersionInfo {
    /// Firmware major version (high nibble of byte 0).
    pub major: u8,
    /// JTAG sub-version (low nibble of byte 0, then the top two bits of byte 1).
    pub jtag: u8,
    /// SWIM sub-version (low six bits of byte 1).
    pub swim: u8,
    /// Loader version (bytes 4 and 5, little-endian).
    pub loader: u16,
}

/// The versions a version reply encodes.
pub open spec fn version_fields(reply: Seq<u8>) -> VersionInfo {
    VersionInfo {
        major: reply[0] / 16,
        jtag: ((reply[0] % 16) * 4 + reply[1] / 64) as u8,
        swim: reply[1] % 64,
        loader: read_le16(reply[4], reply[5]),
    }
}

/// Decodes the versions of a version reply.
pub fn parse_version_reply(reply: &[u8]) -> (r: VersionInfo)
    requires
        reply@.len() == REPLY_LEN,
    ensures
        r == version_fields(reply@),
{
    VersionInfo {
        major: reply[0] / 16,
        jtag: (reply[0] % 16) * 4 + reply[1] / 64,
        swim: reply[1] % 64,
        loader: (reply[4] as u16) + 256 * (reply[5] as u16),
    }
}

/// The current mode of a mode reply: its first two bytes, big-endian.
pub fn parse_mode_reply(reply: &[u8]) -> (r: u16)
    requires
        reply@.len() == REPLY_LEN,
    ensures
        r as int == 256 * reply@[0] as int + reply@[1] as int,
{
    256 * (reply[0] as u16) + (reply[1] as u16)
}

/// Upper-case hexadecimal digit of a value below 16.
pub open spec fn hex_digit(n: u8) -> char
    recommends
        n < 16,
{
    if n < 10 {
        (n + 48) as char
    } else {
        (n + 55) as char
    }
}

/// Two upper-case hexadecimal digits for each byte, in order.
pub open spec fn hex_of(bytes: Seq<u8>) -> Seq<char>
    decreases bytes.len(),
{
    if bytes.len() == 0 {
        Seq::empty()
    } else {
        hex_of(bytes.drop_last()) + seq![hex_digit(bytes.last() / 16), hex_digit(bytes.last() % 16)]
    }
}

fn to_hex_digit(n: u8) -> (c: char)
    requires
        n < 16,
    ensures
        c == hex_digit(n),
{
    if n < 10 {
        (n + 48) as char
    } else {
        (n + 55) as char
    }
}

/// Relies on String::push: appends one character.
#[verifier::external_body]
fn push_char(s: &mut String, c: char)
    ensures
        final(s)@ == old(s)@.push(c),
{
    s.push(c)
}

/// Upper-case hexadecimal text of `bytes`, two digits per byte.
pub fn bytes_as_hex(bytes: &[u8]) -> (r: String)
    ensures
        r@ == hex_of(bytes@),
{
    let mut r = String::new();
    let mut i: usize = 0;
    while i < bytes.len()
        invariant
            i <= bytes@.len(),
            r@ == hex_of(bytes@.take(i as int)),
        decreases bytes@.len() - i,
    {
        let b = bytes[i];
        push_char(&mut r, to_hex_digit(b / 16));
        push_char(&mut r, to_hex_digit(b % 16));
        proof {
            assert(bytes@.take(i as int + 1).drop_last() =~= bytes@.take(i as int));
        }
        i = i + 1;
    }
    assert(bytes@.take(bytes@.len() as int) =~= bytes@);
    r
}

} // verus!
