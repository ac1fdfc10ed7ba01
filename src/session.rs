//! One probe's session with its bootloader: the version gate, the session
//! key derived from the identity reply, and the blocks sent under that key.
use vstd::prelude::*;
use crate::cipher::{derive_session_key, session_key_of, swap_word_order, word_swapped};
use crate::codec::{
    bytes_as_hex, hex_of, parse_version_reply, request_header, version_fields, DownloadType,
    VersionInfo, MAX_PAYLOAD, REPLY_LEN,
};
use crate::exchange::{wire_body, BlockExchange, DownloadError, Phase};

verus! {

/// USB vendor id of the probes.
pub const STLINK_VID: u16 = 0x0483;

/// USB product id of a probe in bootloader mode.
pub const STLINK_PID: u16 = 0x3748;

/// Highest firmware major version whose bootloader speaks this protocol.
pub const MAX_SUPPORTED_MAJOR: u8 = 2;

/// Whether a USB device with these ids is a probe in bootloader mode.
pub fn is_bootloader(vendor_id: u16, product_id: u16) -> (r: bool)
    ensures
        r == (vendor_id == STLINK_VID && product_id == STLINK_PID),
{
    vendor_id == STLINK_VID && product_id == STLINK_PID
}

/// The version gate reads the top nibble of the reply's first byte: a
/// session is refused exactly when that nibble is 3 or more.
pub proof fn lemma_version_gate(version_reply: Seq<u8>)
    requires
        version_reply.len() == REPLY_LEN,
    ensures
        version_fields(version_reply).major > MAX_SUPPORTED_MAJOR <==> version_reply[0] >= 0x30,
{
}

/// Why a session cannot go on.
#[derive(PartialEq, Eq, Structural, Clone, Copy, Debug)]
pub enum SessionError {
    /// The firmware major version is 3 or above, whose protocol is not this one.
    UnsupportedVersion(u8),
}

/// The version gate, on the version reply alone: the decoded versions when
/// the firmware major version is 2 or below, else the refusal. It is to be
/// passed before anything else is sent to the probe.
pub fn check_version(version_reply: &[u8]) -> (r: Result<VersionInfo, SessionError>)
    requires
        version_reply@.len() == REPLY_LEN,
    ensures
        version_fields(version_reply@).major > MAX_SUPPORTED_MAJOR ==> r == Err::<
            VersionInfo,
            SessionError,
        >(SessionError::UnsupportedVersion(version_fields(version_reply@).major)),
        version_fields(version_reply@).major <= MAX_SUPPORTED_MAJOR ==> r == Ok::<
            VersionInfo,
            SessionError,
        >(version_fields(version_reply@)),
{
    let version = parse_version_reply(version_reply);
    if version.major > MAX_SUPPORTED_MAJOR {
        Err(SessionError::UnsupportedVersion(version.major))
    } else {
        Ok(version)
    }
}

/// What the identification handshake learned of a probe.
#[derive(Debug)]
pub struct DeviceInfo {
    pub version: VersionInfo,
    /// The 12-byte device identifier.
    pub device_id: Vec<u8>,
    /// The 16-byte session key derived from it.
    pub session_key: Vec<u8>,
}

/// The device identifier of an identity reply: its last twelve bytes.
pub open spec fn device_id_of(reply: Seq<u8>) -> Seq<u8> {
    reply.subrange(8, 20)
}

/// The session key an identity reply gives: its first four bytes and its
/// device identifier, obfuscated under the passphrase.
pub open spec fn reply_session_key(reply: Seq<u8>) -> Seq<u8> {
    session_key_of(device_id_of(reply), reply.subrange(0, 4))
}

/// The device identifier as the probe's own tools print it: each 32-bit word
/// in upper-case hexadecimal, most significant byte first.
pub fn device_id_text(device_id: &[u8]) -> (r: String)
    ensures
        r@ == hex_of(word_swapped(device_id@)),
{
    let swapped = swap_word_order(device_id, device_id.len());
    assert(device_id@.take(device_id@.len() as int) =~= device_id@);
    bytes_as_hex(swapped.as_slice())
}

fn copy_range(s: &[u8], start: usize, end: usize) -> (r: Vec<u8>)
    requires
        start <= end <= s@.len(),
    ensures
        r@ == s@.subrange(start as int, end as int),
{
    let mut r: Vec<u8> = Vec::with_capacity(end - start);
    let mut i: usize = start;
    while i < end
        invariant
            start <= i <= end <= s@.len(),
            r@ == s@.subrange(start as int, i as int),
        decreases end - i,
    {
        r.push(s[i]);
        i = i + 1;
        assert(r@ =~= s@.subrange(start as int, i as int));
    }
    r
}

/// A probe's session: holds the session key once the handshake derived it.
pub struct STLink {
    encryption_key: Option<Vec<u8>>,
}

impl STLink {
    /// A session key, when there is one, is 16 bytes.
    #[verifier::type_invariant]
    spec fn key_is_block(&self) -> bool {
        self.encryption_key matches Some(k) ==> k@.len() == 16
    }

    /// The session key, once derived.
    pub closed spec fn key(&self) -> Option<Seq<u8>> {
        match self.encryption_key {
            Some(k) => Some(k@),
            None => None,
        }
    }

    /// A session that has not been through the handshake.
    pub fn new() -> (r: STLink)
        ensures
            r.key() is None,
    {
        STLink { encryption_key: None }
    }

    /// The session key, once derived.
    pub fn session_key(&self) -> (r: Option<Vec<u8>>)
        ensures
            r matches Some(k) ==> self.key() == Some(k@) && k@.len() == 16,
            r is None <==> self.key() is None,
    {
        proof {
            use_type_invariant(self);
        }
        match &self.encryption_key {
            Some(k) => {
                let c = k.clone();
                assert(c@ =~= k@);
                Some(c)
            },
            None => None,
        }
    }

    /// The handshake: decodes the version reply and refuses a firmware major
    /// version of 3 or above; otherwise reads the device identifier from the
    /// identity reply and derives and keeps the session key. The identity
    /// query is to be sent only once `check_version` has passed the version
    /// reply.
    pub fn identify(&mut self, version_reply: &[u8], identity_reply: &[u8]) -> (r: Result<
        DeviceInfo,
        SessionError,
    >)
        requires
            version_reply@.len() == REPLY_LEN,
            identity_reply@.len() == REPLY_LEN,
        ensures
            version_fields(version_reply@).major > MAX_SUPPORTED_MAJOR ==> r == Err::<
                DeviceInfo,
                SessionError,
            >(SessionError::UnsupportedVersion(version_fields(version_reply@).major))
                && final(self).key() == old(self).key(),
            version_fields(version_reply@).major <= MAX_SUPPORTED_MAJOR ==> (r matches Ok(info)
                && info.version == version_fields(version_reply@) && info.session_key@.len() == 16
                && info.device_id@
                == device_id_of(identity_reply@) && info.session_key@ == reply_session_key(
                identity_reply@,
            ) && final(self).key() == Some(reply_session_key(identity_reply@))),
    {
        let version = match check_version(version_reply) {
            Ok(v) => v,
            Err(e) => return Err(e),
        };
        let device_id = copy_range(identity_reply, 8, 20);
        let prefix = copy_range(identity_reply, 0, 4);
        let key = derive_session_key(device_id.as_slice(), prefix.as_slice());
        let kept = key.clone();
        assert(kept@ =~= key@);
        *self = STLink { encryption_key: Some(kept) };
        Ok(DeviceInfo { version, device_id, session_key: key })
    }

    /// Starts the exchange that sends `payload`. A data block needs the
    /// session key and is obfuscated under it; a command goes as it is.
    pub fn start_block(&self, download_type: DownloadType, payload: &[u8]) -> (r: Result<
        BlockExchange,
        DownloadError,
    >)
        ensures
            payload@.len() > MAX_PAYLOAD ==> r == Err::<BlockExchange, DownloadError>(
                DownloadError::PayloadTooLong,
            ),
            payload@.len() <= MAX_PAYLOAD && download_type == DownloadType::Data && self.key()
                is None ==> r == Err::<BlockExchange, DownloadError>(
                DownloadError::MissingSessionKey,
            ),
            payload@.len() <= MAX_PAYLOAD && download_type == DownloadType::Command ==> (r matches Ok(
                x,
            ) && x.phase == Phase::SendHeader && x.header@ == request_header(download_type, payload@)
                && x.body@ == payload@),
            payload@.len() <= MAX_PAYLOAD && download_type == DownloadType::Data && self.key()
                is Some ==> (r matches Ok(x) && x.phase == Phase::SendHeader && x.header@
                == request_header(download_type, payload@) && x.body@ == wire_body(
                download_type,
                payload@,
                self.key()->0,
            )),
    {
        proof {
            use_type_invariant(self);
        }
        if payload.len() > MAX_PAYLOAD {
            return Err(DownloadError::PayloadTooLong);
        }
        match download_type {
            DownloadType::Command => Ok(BlockExchange::new(download_type, payload, &[])),
            DownloadType::Data => match &self.encryption_key {
                None => Err(DownloadError::MissingSessionKey),
                Some(k) => Ok(BlockExchange::new(download_type, payload, k.as_slice())),
            },
        }
    }
}

} // verus!
