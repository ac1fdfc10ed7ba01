//! DFU status replies: the bootloader's status and state codes, and what a
//! reply means at each point of a download exchange.
use vstd::prelude::*;

verus! {

/// Outcome codes a bootloader reports.
#[derive(PartialEq, Eq, Structural, Clone, Copy, Debug)]
pub enum DeviceStatus {
    NoError,
    ErrTarget,
    ErrFile,
    ErrWrite,
    ErrErase,
    ErrCheckErased,
    ErrProg,
    ErrVerify,
    ErrAddress,
    ErrNotdone,
    ErrFirmware,
    ErrVendor,
    ErrUsbr,
    ErrPor,
    ErrUnknown,
    ErrStalledpkt,
}

/// States of the bootloader.
#[derive(PartialEq, Eq, Structural, Clone, Copy, Debug)]
pub enum DeviceState {
    AppIdle,
    AppDetach,
    DfuIdle,
    DfuDnloadSync,
    DfuDnbusy,
    DfuDnloadIdle,
    DfuManifestSync,
    DfuManifest,
    DfuManifestWaitReset,
    DfuUploadIdle,
    DfuError,
}

impl DeviceStatus {
    /// Wire code of the status.
    pub open spec fn spec_code(self) -> u8 {
        match self {
            DeviceStatus::NoError => 0,
            DeviceStatus::ErrTarget => 1,
            DeviceStatus::ErrFile => 2,
            DeviceStatus::ErrWrite => 3,
            DeviceStatus::ErrErase => 4,
            DeviceStatus::ErrCheckErased => 5,
            DeviceStatus::ErrProg => 6,
            DeviceStatus::ErrVerify => 7,
            DeviceStatus::ErrAddress => 8,
            DeviceStatus::ErrNotdone => 9,
            DeviceStatus::ErrFirmware => 10,
            DeviceStatus::ErrVendor => 11,
            DeviceStatus::ErrUsbr => 12,
            DeviceStatus::ErrPor => 13,
            DeviceStatus::ErrUnknown => 14,
            DeviceStatus::ErrStalledpkt => 15,
        }
    }

    /// Wire code of the status.
    pub fn code(self) -> (r: u8)
        ensures
            r == self.spec_code(),
    {
        match self {
            DeviceStatus::NoError => 0,
            DeviceStatus::ErrTarget => 1,
            DeviceStatus::ErrFile => 2,
            DeviceStatus::ErrWrite => 3,
            DeviceStatus::ErrErase => 4,
            DeviceStatus::ErrCheckErased => 5,
            DeviceStatus::ErrProg => 6,
            DeviceStatus::ErrVerify => 7,
            DeviceStatus::ErrAddress => 8,
            DeviceStatus::ErrNotdone => 9,
            DeviceStatus::ErrFirmware => 10,
            DeviceStatus::ErrVendor => 11,
            DeviceStatus::ErrUsbr => 12,
            DeviceStatus::ErrPor => 13,
            DeviceStatus::ErrUnknown => 14,
            DeviceStatus::ErrStalledpkt => 15,
        }
    }

    /// The status with wire code `code`; `None` for a code outside 0..=15.
    pub open spec fn spec_from_code(code: u8) -> Option<DeviceStatus> {
        match code {
            0 => Some(DeviceStatus::NoError),
            1 => Some(DeviceStatus::ErrTarget),
            2 => Some(DeviceStatus::ErrFile),
            3 => Some(DeviceStatus::ErrWrite),
            4 => Some(DeviceStatus::ErrErase),
            5 => Some(DeviceStatus::ErrCheckErased),
            6 => Some(DeviceStatus::ErrProg),
            7 => Some(DeviceStatus::ErrVerify),
            8 => Some(DeviceStatus::ErrAddress),
            9 => Some(DeviceStatus::ErrNotdone),
            10 => Some(DeviceStatus::ErrFirmware),
            11 => Some(DeviceStatus::ErrVendor),
            12 => Some(DeviceStatus::ErrUsbr),
            13 => Some(DeviceStatus::ErrPor),
            14 => Some(DeviceStatus::ErrUnknown),
            15 => Some(DeviceStatus::ErrStalledpkt),
            _ => None,
        }
    }

    /// The status with wire code `code`; `None` for a code outside 0..=15.
    pub fn from_code(code: u8) -> (r: Option<DeviceStatus>)
        ensures
            r == Self::spec_from_code(code),
    {
        match code {
            0 => Some(DeviceStatus::NoError),
            1 => Some(DeviceStatus::ErrTarget),
            2 => Some(DeviceStatus::ErrFile),
            3 => Some(DeviceStatus::ErrWrite),
            4 => Some(DeviceStatus::ErrErase),
            5 => Some(DeviceStatus::ErrCheckErased),
            6 => Some(DeviceStatus::ErrProg),
            7 => Some(DeviceStatus::ErrVerify),
            8 => Some(DeviceStatus::ErrAddress),
            9 => Some(DeviceStatus::ErrNotdone),
            10 => Some(DeviceStatus::ErrFirmware),
            11 => Some(DeviceStatus::ErrVendor),
            12 => Some(DeviceStatus::ErrUsbr),
            13 => Some(DeviceStatus::ErrPor),
            14 => Some(DeviceStatus::ErrUnknown),
            15 => Some(DeviceStatus::ErrStalledpkt),
            _ => None,
        }
    }
}

impl DeviceState {
    /// Wire code of the state.
    pub open spec fn spec_code(self) -> u8 {
        match self {
            DeviceState::AppIdle => 0,
            DeviceState::AppDetach => 1,
            DeviceState::DfuIdle => 2,
            DeviceState::DfuDnloadSync => 3,
            DeviceState::DfuDnbusy => 4,
            DeviceState::DfuDnloadIdle => 5,
            DeviceState::DfuManifestSync => 6,
            DeviceState::DfuManifest => 7,
            DeviceState::DfuManifestWaitReset => 8,
            DeviceState::DfuUploadIdle => 9,
            DeviceState::DfuError => 10,
        }
    }

    /// Wire code of the state.
    pub fn code(self) -> (r: u8)
        ensures
            r == self.spec_code(),
    {
        match self {
            DeviceState::AppIdle => 0,
            DeviceState::AppDetach => 1,
            DeviceState::DfuIdle => 2,
            DeviceState::DfuDnloadSync => 3,
            DeviceState::DfuDnbusy => 4,
            DeviceState::DfuDnloadIdle => 5,
            DeviceState::DfuManifestSync => 6,
            DeviceState::DfuManifest => 7,
            DeviceState::DfuManifestWaitReset => 8,
            DeviceState::DfuUploadIdle => 9,
            DeviceState::DfuError => 10,
        }
    }

    /// The state with wire code `code`; `None` for a code outside 0..=10.
    pub open spec fn spec_from_code(code: u8) -> Option<DeviceState> {
        match code {
            0 => Some(DeviceState::AppIdle),
            1 => Some(DeviceState::AppDetach),
            2 => Some(DeviceState::DfuIdle),
            3 => Some(DeviceState::DfuDnloadSync),
            4 => Some(DeviceState::DfuDnbusy),
            5 => Some(DeviceState::DfuDnloadIdle),
            6 => Some(DeviceState::DfuManifestSync),
            7 => Some(DeviceState::DfuManifest),
            8 => Some(DeviceState::DfuManifestWaitReset),
            9 => Some(DeviceState::DfuUploadIdle),
            10 => Some(DeviceState::DfuError),
            _ => None,
        }
    }

    /// The state with wire code `code`; `None` for a code outside 0..=10.
    pub fn from_code(code: u8) -> (r: Option<DeviceState>)
        ensures
            r == Self::spec_from_code(code),
    {
        match code {
            0 => Some(DeviceState::AppIdle),
            1 => Some(DeviceState::AppDetach),
            2 => Some(DeviceState::DfuIdle),
            3 => Some(DeviceState::DfuDnloadSync),
            4 => Some(DeviceState::DfuDnbusy),
            5 => Some(DeviceState::DfuDnloadIdle),
            6 => Some(DeviceState::DfuManifestSync),
            7 => Some(DeviceState::DfuManifest),
            8 => Some(DeviceState::DfuManifestWaitReset),
            9 => Some(DeviceState::DfuUploadIdle),
            10 => Some(DeviceState::DfuError),
            _ => None,
        }
    }
}

/// A decoded status reply.
#[derive(PartialEq, Eq, Structural, Clone, Copy, Debug)]
pub struct DfuStatus {
    pub status: DeviceStatus,
    pub state: DeviceState,
    /// Minimum wait, in milliseconds, before the next status query.
    pub poll_timeout_ms: u32,
}

/// Why a status reply could not be decoded.
#[derive(PartialEq, Eq, Structural, Clone, Copy, Debug)]
pub enum StatusParseError {
    /// The reply is shorter than the five bytes that carry the status.
    Truncated,
    /// Byte 0 is no known status code.
    UnknownStatus(u8),
    /// Byte 4 is no known state code.
    UnknownState(u8),
}

/// The poll timeout of a status reply: bytes 1 to 3, little-endian.
pub open spec fn poll_timeout_of(reply: Seq<u8>) -> u32 {
    (reply[1] as int + 256 * reply[2] as int + 65536 * reply[3] as int) as u32
}

/// The decoded form of a status reply: status code in byte 0, poll timeout
/// in bytes 1 to 3 (little-endian), state code in byte 4.
pub open spec fn status_of(reply: Seq<u8>) -> Result<DfuStatus, StatusParseError> {
    if reply.len() < 5 {
        Err(StatusParseError::Truncated)
    } else {
        match (DeviceStatus::spec_from_code(reply[0]), DeviceState::spec_from_code(reply[4])) {
            (None, _) => Err(StatusParseError::UnknownStatus(reply[0])),
            (Some(_), None) => Err(StatusParseError::UnknownState(reply[4])),
            (Some(status), Some(state)) => Ok(
                DfuStatus { status, state, poll_timeout_ms: poll_timeout_of(reply) },
            ),
        }
    }
}

/// Decodes a status reply.
pub fn parse_status_reply(reply: &[u8]) -> (r: Result<DfuStatus, StatusParseError>)
    ensures
        r == status_of(reply@),
{
    if reply.len() < 5 {
        return Err(StatusParseError::Truncated);
    }
    let status = match DeviceStatus::from_code(reply[0]) {
        Some(s) => s,
        None => return Err(StatusParseError::UnknownStatus(reply[0])),
    };
    let state = match DeviceState::from_code(reply[4]) {
        Some(s) => s,
        None => return Err(StatusParseError::UnknownState(reply[4])),
    };
    let poll_timeout_ms = (reply[1] as u32) + 256 * (reply[2] as u32) + 65536 * (reply[3] as u32);
    Ok(DfuStatus { status, state, poll_timeout_ms })
}

} // verus!
