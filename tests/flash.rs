use stlink_flash::codec::{erase_command, set_address_command, DownloadType};
use stlink_flash::exchange::DownloadError;
use stlink_flash::flash::{chunk_plan, Chunk, FailurePolicy, FlashSession, Stage, BASE_ADDRESS, CHUNK_SIZE};

#[test]
fn image_of_2500_bytes_makes_three_chunks() {
    let plan = chunk_plan(2500, 0x08004000, 1024).unwrap();
    assert_eq!(
        plan,
        vec![
            Chunk { offset: 0, len: 1024, address: 0x08004000 },
            Chunk { offset: 1024, len: 1024, address: 0x08004400 },
            Chunk { offset: 2048, len: 452, address: 0x08004800 },
        ]
    );
}

#[test]
fn chunk_plan_edges() {
    assert_eq!(chunk_plan(0, BASE_ADDRESS, CHUNK_SIZE).unwrap(), vec![]);
    assert_eq!(chunk_plan(2048, BASE_ADDRESS, CHUNK_SIZE).unwrap().len(), 2);
    assert_eq!(
        chunk_plan(1, 0xFFFF_FFFE, 1024).unwrap(),
        vec![Chunk { offset: 0, len: 1, address: 0xFFFF_FFFE }]
    );
    assert_eq!(
        chunk_plan(2, 0xFFFF_FFFE, 1024).unwrap(),
        vec![Chunk { offset: 0, len: 2, address: 0xFFFF_FFFE }]
    );
    assert_eq!(chunk_plan(3, 0xFFFF_FFFE, 1024), None);
}

#[test]
fn image_ending_at_last_address_is_accepted() {
    let plan = chunk_plan(0xF7FF_C000, BASE_ADDRESS, CHUNK_SIZE).unwrap();
    assert_eq!(plan.len(), 0xF7FF_C000 / 1024);
    assert_eq!(
        *plan.last().unwrap(),
        Chunk { offset: 0xF7FF_BC00, len: 1024, address: 0xFFFF_FC00 }
    );
    assert!(FlashSession::new(0xF7FF_C000, BASE_ADDRESS, CHUNK_SIZE, FailurePolicy::AbortOnError).is_some());
    assert_eq!(chunk_plan(0xF7FF_C001, BASE_ADDRESS, CHUNK_SIZE), None);
    assert!(FlashSession::new(0xF7FF_C001, BASE_ADDRESS, CHUNK_SIZE, FailurePolicy::AbortOnError).is_none());
}

fn ten_byte_image() -> Vec<u8> {
    (1..=10u8).collect()
}

#[test]
fn one_chunk_image_makes_erase_set_address_and_data() {
    let image = ten_byte_image();
    let mut s = FlashSession::new(image.len(), BASE_ADDRESS, CHUNK_SIZE, FailurePolicy::AbortOnError).unwrap();
    let mut blocks = Vec::new();
    let mut progress = 0;
    while let Some(b) = s.next_block(&image) {
        blocks.push(b);
        if s.record(Ok(())) {
            progress += 1;
        }
    }
    assert_eq!(
        blocks,
        vec![
            (DownloadType::Command, erase_command(0x08004000)),
            (DownloadType::Command, set_address_command(0x08004000)),
            (DownloadType::Data, image.clone()),
        ]
    );
    assert_eq!(progress, 1);
    assert!(!s.failed);
}

#[test]
fn blocks_follow_chunk_addresses() {
    let image = vec![7u8; 2500];
    let mut s = FlashSession::new(image.len(), 0x08004000, 1024, FailurePolicy::AbortOnError).unwrap();
    let mut blocks = Vec::new();
    while let Some(b) = s.next_block(&image) {
        blocks.push(b);
        s.record(Ok(()));
    }
    assert_eq!(blocks.len(), 9);
    assert_eq!(blocks[3].1, erase_command(0x08004400));
    assert_eq!(blocks[7].1, set_address_command(0x08004800));
    assert_eq!(blocks[8].1.len(), 452);
}

#[test]
fn abort_policy_stops_at_first_failure() {
    let image = vec![1u8; 3000];
    let mut s = FlashSession::new(image.len(), BASE_ADDRESS, CHUNK_SIZE, FailurePolicy::AbortOnError).unwrap();
    assert!(s.next_block(&image).is_some());
    s.record(Ok(()));
    assert!(s.next_block(&image).is_some());
    assert!(!s.record(Err(DownloadError::InvalidAddress)));
    assert!(s.halted);
    assert!(s.failed);
    assert_eq!(s.stage, Stage::SetAddress);
    assert_eq!(s.next_block(&image), None);
}

#[test]
fn continue_policy_goes_on_after_failure() {
    let image = vec![1u8; 2048];
    let mut s = FlashSession::new(image.len(), BASE_ADDRESS, CHUNK_SIZE, FailurePolicy::ContinueOnError).unwrap();
    let mut count = 0;
    while let Some(_) = s.next_block(&image) {
        count += 1;
        let res = if count == 3 { Err(DownloadError::ReadOnlyProtection) } else { Ok(()) };
        s.record(res);
    }
    assert_eq!(count, 6);
    assert!(s.failed);
    assert!(!s.halted);
}

#[test]
fn session_refuses_image_past_address_space() {
    assert!(FlashSession::new(0x1000, 0xFFFF_F800, CHUNK_SIZE, FailurePolicy::AbortOnError).is_none());
}
