//! Protocol engine for re-flashing the bootloader of ST-Link V2 style debug
//! probes: wire codec, session-key derivation, DFU status decoding, the
//! per-block download exchange and the chunked flash sequence.
pub mod cipher;
pub mod codec;
pub mod exchange;
pub mod flash;
pub mod session;
pub mod status;
