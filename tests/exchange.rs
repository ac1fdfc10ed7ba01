use stlink_flash::codec::{build_download_request, DownloadType};
use stlink_flash::exchange::{
    check_busy_reply, check_idle_reply, decode_failure, Action, BlockExchange, DownloadError,
    Event, Phase, TransferStep, TransportError,
};
use stlink_flash::status::{DeviceState, DeviceStatus, StatusParseError};

fn reply(status: u8, state: u8, poll_ms: u32) -> Vec<u8> {
    let mut r = vec![0u8; 20];
    r[0] = status;
    r[1] = (poll_ms & 0xFF) as u8;
    r[2] = ((poll_ms >> 8) & 0xFF) as u8;
    r[3] = ((poll_ms >> 16) & 0xFF) as u8;
    r[4] = state;
    r
}

/// Drives an exchange against a transport whose writes and sleeps succeed and
/// whose status queries answer with `replies` in turn. Returns the writes,
/// the sleeps and the outcome.
fn drive(
    mut x: BlockExchange,
    replies: Vec<Vec<u8>>,
) -> (Vec<Vec<u8>>, Vec<u32>, Result<(), DownloadError>) {
    let mut writes = Vec::new();
    let mut sleeps = Vec::new();
    let mut replies = replies.into_iter();
    for _ in 0..10 {
        match x.action() {
            Action::Write(b) => {
                writes.push(b);
                x.advance(Event::Completed);
            }
            Action::Sleep(ms) => {
                sleeps.push(ms);
                x.advance(Event::Completed);
            }
            Action::QueryStatus => match replies.next() {
                Some(r) => x.advance(Event::Reply(r)),
                None => x.advance(Event::Failed(TransportError::Timeout)),
            },
            Action::Done(res) => return (writes, sleeps, res),
        }
    }
    panic!("exchange did not finish");
}

fn key() -> Vec<u8> {
    (0..16u8).collect()
}

#[test]
fn block_succeeds_on_busy_then_idle() {
    let x = BlockExchange::new(DownloadType::Command, &[0x41, 0, 0x40, 0, 0x08], &[]);
    let (writes, sleeps, res) = drive(x, vec![reply(0, 4, 25), reply(0, 5, 0)]);
    assert_eq!(res, Ok(()));
    assert_eq!(sleeps, vec![25]);
    assert_eq!(writes.len(), 2);
    assert_eq!(writes[0], build_download_request(DownloadType::Command, &[0x41, 0, 0x40, 0, 0x08]));
    assert_eq!(writes[1], vec![0x41, 0, 0x40, 0, 0x08]);
}

#[test]
fn block_reports_read_only_protection() {
    let x = BlockExchange::new(DownloadType::Data, &[1, 2, 3, 4], &key());
    let (_, _, res) = drive(x, vec![reply(0, 4, 1), reply(11, 10, 0)]);
    assert_eq!(res, Err(DownloadError::ReadOnlyProtection));
}

#[test]
fn block_reports_invalid_address() {
    let x = BlockExchange::new(DownloadType::Command, &[0x21, 0, 0, 0, 0], &[]);
    let (_, _, res) = drive(x, vec![reply(0, 4, 1), reply(1, 10, 0)]);
    assert_eq!(res, Err(DownloadError::InvalidAddress));
}

#[test]
fn block_reports_other_device_errors() {
    let x = BlockExchange::new(DownloadType::Command, &[0x21, 0, 0, 0, 0], &[]);
    let (_, _, res) = drive(x, vec![reply(0, 4, 1), reply(4, 10, 0)]);
    assert_eq!(res, Err(DownloadError::DeviceError(DeviceStatus::ErrErase)));
}

#[test]
fn block_fails_on_unexpected_first_status() {
    let x = BlockExchange::new(DownloadType::Command, &[0x21, 0, 0, 0, 0], &[]);
    let (_, sleeps, res) = drive(x, vec![reply(0, 2, 1), reply(0, 5, 0)]);
    assert_eq!(res, Err(DownloadError::UnexpectedStatus(DeviceState::DfuIdle, DeviceStatus::NoError)));
    assert!(sleeps.is_empty());
}

#[test]
fn block_fails_on_malformed_status() {
    let x = BlockExchange::new(DownloadType::Command, &[0x21, 0, 0, 0, 0], &[]);
    let (_, _, res) = drive(x, vec![reply(0, 4, 1), reply(0, 12, 0)]);
    assert_eq!(res, Err(DownloadError::MalformedStatus(StatusParseError::UnknownState(12))));
}

#[test]
fn block_fails_on_transfer_failure() {
    let mut x = BlockExchange::new(DownloadType::Command, &[0x21, 0, 0, 0, 0], &[]);
    x.advance(Event::Failed(TransportError::NoDevice));
    assert!(matches!(
        x.action(),
        Action::Done(Err(DownloadError::TransferFailed(TransferStep::Header, TransportError::NoDevice)))
    ));
    let x = BlockExchange::new(DownloadType::Command, &[0x21, 0, 0, 0, 0], &[]);
    let (_, _, res) = drive(x, vec![reply(0, 4, 1)]);
    assert_eq!(res, Err(DownloadError::TransferFailed(TransferStep::StatusQuery, TransportError::Timeout)));
}

#[test]
fn payload_failure_ends_the_exchange() {
    let mut x = BlockExchange::new(DownloadType::Command, &[0x21, 0, 0, 0, 0], &[]);
    x.advance(Event::Completed);
    assert!(matches!(x.action(), Action::Write(_)));
    x.advance(Event::Failed(TransportError::Pipe));
    assert!(matches!(
        x.action(),
        Action::Done(Err(DownloadError::TransferFailed(TransferStep::Payload, TransportError::Pipe)))
    ));
    x.advance(Event::Completed);
    x.advance(Event::Reply(reply(0, 4, 1)));
    assert!(matches!(x.phase, Phase::Finished(Err(DownloadError::TransferFailed(TransferStep::Payload, _)))));
}

#[test]
fn events_out_of_turn_change_nothing() {
    let mut x = BlockExchange::new(DownloadType::Command, &[0x21], &[]);
    x.advance(Event::Reply(reply(0, 4, 1)));
    assert!(matches!(x.phase, Phase::SendHeader));
}

#[test]
fn data_block_is_obfuscated_and_checksummed_in_clear() {
    let payload: Vec<u8> = (0..32u8).collect();
    let x = BlockExchange::new(DownloadType::Data, &payload, &key());
    assert_eq!(x.header, build_download_request(DownloadType::Data, &payload));
    assert_eq!(x.body.len(), payload.len());
    assert_ne!(x.body, payload);
}

#[test]
fn status_checks() {
    assert_eq!(check_busy_reply(&reply(0, 4, 300)), Ok(300));
    assert_eq!(
        check_busy_reply(&reply(11, 4, 300)),
        Err(DownloadError::UnexpectedStatus(DeviceState::DfuDnbusy, DeviceStatus::ErrVendor))
    );
    assert_eq!(check_idle_reply(&reply(3, 5, 0)), Ok(()));
    assert_eq!(check_idle_reply(&reply(17, 5, 0)), Err(DownloadError::MalformedStatus(StatusParseError::UnknownStatus(17))));
    assert_eq!(decode_failure(DeviceStatus::ErrVendor), DownloadError::ReadOnlyProtection);
    assert_eq!(decode_failure(DeviceStatus::ErrTarget), DownloadError::InvalidAddress);
    assert_eq!(decode_failure(DeviceStatus::NoError), DownloadError::DeviceError(DeviceStatus::NoError));
}
