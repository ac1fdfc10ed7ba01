use aes::cipher::{block_padding::Pkcs7, generic_array::GenericArray, BlockEncryptMut, KeyInit};
use stlink_flash::cipher::{derive_session_key, obfuscate, swap_word_order};
use stlink_flash::codec::DownloadType;
use stlink_flash::exchange::DownloadError;
use stlink_flash::session::{check_version, device_id_text, is_bootloader, SessionError, STLink};

fn swap(words: &[u8]) -> Vec<u8> {
    words
        .chunks(4)
        .flat_map(|c| u32::from_le_bytes(c.try_into().unwrap()).to_be_bytes())
        .collect()
}

/// The four steps written out: word swap, AES-128-ECB with PKCS#7, cut to
/// length, word swap.
fn four_step(key: &[u8], data: &[u8]) -> Vec<u8> {
    let k = swap(key);
    let d = swap(data);
    let enc = ecb::Encryptor::<aes::Aes128>::new(GenericArray::from_slice(&k));
    let c = enc.encrypt_padded_vec_mut::<Pkcs7>(&d);
    swap(&c[..d.len()])
}

fn device_id() -> Vec<u8> {
    vec![0x01, 0x02, 0x03, 0x04, 0x05, 0x06, 0x07, 0x08, 0x09, 0x0A, 0x0B, 0x0C]
}

fn replies(first: u8) -> ([u8; 20], [u8; 20]) {
    let mut version = [0u8; 20];
    version[0] = first;
    let mut identity = [0u8; 20];
    identity[0] = first;
    identity[8..].copy_from_slice(&device_id());
    (version, identity)
}

#[test]
fn session_key_follows_the_four_steps() {
    let (version, identity) = replies(0x21);
    let mut link = STLink::new();
    let info = link.identify(&version, &identity).unwrap();
    assert_eq!(info.version.major, 2);
    assert_eq!(info.device_id, device_id());
    let mut material = vec![0x21, 0, 0, 0];
    material.extend_from_slice(&device_id());
    let expected = four_step(b"I am key, wawawa", &material);
    assert_eq!(info.session_key, expected);
    assert_eq!(link.session_key(), Some(expected.clone()));
    assert_eq!(derive_session_key(&device_id(), &[0x21, 0, 0, 0]), expected);
}

#[test]
fn obfuscation_matches_the_four_steps() {
    let key: Vec<u8> = (100..116u8).collect();
    let data: Vec<u8> = (0..40u8).collect();
    let r = obfuscate(&key, &data);
    assert_eq!(r, four_step(&key, &data));
    assert_ne!(r, data);
}

#[test]
fn session_key_is_deterministic() {
    let a = derive_session_key(&device_id(), &[0x21, 0, 0, 0]);
    let b = derive_session_key(&device_id(), &[0x21, 0, 0, 0]);
    assert_eq!(a, b);
    assert_eq!(a.len(), 16);
}

#[test]
fn session_key_changes_with_every_input_byte() {
    let base = derive_session_key(&device_id(), &[0x21, 0, 0, 0]);
    for i in 0..12 {
        let mut id = device_id();
        id[i] ^= 1;
        assert_ne!(derive_session_key(&id, &[0x21, 0, 0, 0]), base);
    }
    for i in 0..4 {
        let mut prefix = [0x21u8, 0, 0, 0];
        prefix[i] ^= 1;
        assert_ne!(derive_session_key(&device_id(), &prefix), base);
    }
}

#[test]
fn version_three_is_refused() {
    let (version, identity) = replies(0x30);
    let mut link = STLink::new();
    assert_eq!(link.identify(&version, &identity).unwrap_err(), SessionError::UnsupportedVersion(3));
    assert_eq!(link.session_key(), None);
    let (version, identity) = replies(0xF0);
    assert_eq!(link.identify(&version, &identity).unwrap_err(), SessionError::UnsupportedVersion(15));
}

#[test]
fn refusal_of_one_device_leaves_others() {
    let devices = [replies(0x35), replies(0x21), replies(0x4F), replies(0x10)];
    let outcomes: Vec<bool> = devices
        .iter()
        .map(|(v, i)| STLink::new().identify(v, i).is_ok())
        .collect();
    assert_eq!(outcomes, vec![false, true, false, true]);
}

#[test]
fn data_block_needs_session_key() {
    let link = STLink::new();
    assert!(matches!(
        link.start_block(DownloadType::Data, &[1, 2, 3, 4]),
        Err(DownloadError::MissingSessionKey)
    ));
    let x = link.start_block(DownloadType::Command, &[0x41, 0, 0, 0, 0]).unwrap();
    assert_eq!(x.body, vec![0x41, 0, 0, 0, 0]);
    let too_long = vec![0u8; 0x10000];
    assert!(matches!(link.start_block(DownloadType::Command, &too_long), Err(DownloadError::PayloadTooLong)));
}

#[test]
fn data_block_is_obfuscated_under_session_key() {
    let (version, identity) = replies(0x21);
    let mut link = STLink::new();
    let info = link.identify(&version, &identity).unwrap();
    let chunk: Vec<u8> = (0..10u8).collect();
    let x = link.start_block(DownloadType::Data, &chunk).unwrap();
    assert_eq!(x.body, obfuscate(&info.session_key, &chunk));
    assert_ne!(x.body, chunk);
}

#[test]
fn device_id_is_printed_word_by_word() {
    assert_eq!(device_id_text(&device_id()), "04030201080706050C0B0A09");
}

#[test]
fn word_order_swap() {
    assert_eq!(swap_word_order(&[1, 2, 3, 4, 5, 6, 7, 8], 8), vec![4, 3, 2, 1, 8, 7, 6, 5]);
    assert_eq!(swap_word_order(&[1, 2, 3, 4, 5, 6], 6), vec![4, 3, 2, 1, 6, 5]);
    assert_eq!(swap_word_order(&[1, 2, 3, 4, 5, 6], 4), vec![4, 3, 2, 1]);
}

#[test]
fn bootloader_ids() {
    assert!(is_bootloader(0x0483, 0x3748));
    assert!(!is_bootloader(0x0483, 0x374b));
    assert!(!is_bootloader(0x1d50, 0x3748));
}

#[test]
fn version_gate_on_version_reply_alone() {
    let mut reply = [0u8; 20];
    reply[0] = 0x2F;
    reply[1] = 0x41;
    reply[4] = 7;
    let v = check_version(&reply).unwrap();
    assert_eq!(v.major, 2);
    assert_eq!(v.jtag, 61);
    assert_eq!(v.swim, 1);
    assert_eq!(v.loader, 7);
    reply[0] = 0x30;
    assert_eq!(check_version(&reply), Err(SessionError::UnsupportedVersion(3)));
    reply[0] = 0x00;
    assert_eq!(check_version(&reply).unwrap().major, 0);
}

#[test]
fn session_key_is_sixteen_bytes() {
    let (version, identity) = replies(0x11);
    let mut link = STLink::new();
    let info = link.identify(&version, &identity).unwrap();
    assert_eq!(info.session_key.len(), 16);
    assert_eq!(link.session_key().unwrap().len(), 16);
}
