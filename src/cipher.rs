//! Firmware obfuscation: AES-128 in ECB mode with PKCS#7 padding, wrapped in
//! a byte-order inversion of every 32-bit word, and the derivation of the
//! per-device session key with it. The key and the scheme are fixed and
//! public: this is wire compatibility, not secrecy.
use vstd::prelude::*;
use aes::cipher::{BlockEncryptMut, KeyInit};
use crate::codec::MAX_PAYLOAD;

verus! {

/// Index in `s` of the byte that lands at position `i` when every group of
/// four bytes (and a shorter trailing group) of a sequence of length `n` has
/// its bytes reversed.
pub open spec fn mirrored_index(n: int, i: int) -> int {
    let start = i - i % 4;
    let end = if start + 4 <= n {
        start + 4
    } else {
        n
    };
    start + end - 1 - i
}

/// `s` with the bytes of each 32-bit word in reverse order: a word read
/// little-endian is written back big-endian. A trailing group of fewer than
/// four bytes is reversed as well.
pub open spec fn word_swapped(s: Seq<u8>) -> Seq<u8> {
    Seq::new(s.len(), |i: int| s[mirrored_index(s.len() as int, i)])
}

proof fn lemma_mirror_in_group(n: int, i: int, j: int)
    requires
        i % 4 == 0,
        0 <= i <= j < i + 4,
        j < n,
    ensures
        mirrored_index(n, j) == i + (if i + 4 <= n { i + 4 } else { n }) - 1 - j,
{
    assert(j % 4 == j - i) by (nonlinear_arith)
        requires
            i % 4 == 0,
            0 <= i <= j < i + 4,
    ;
}

/// Byte-order inversion of the first `len` bytes of `s`, word by word.
pub fn swap_word_order(s: &[u8], len: usize) -> (r: Vec<u8>)
    requires
        len <= s@.len(),
    ensures
        r@ == word_swapped(s@.take(len as int)),
{
    let ghost n = len as int;
    let mut r: Vec<u8> = Vec::with_capacity(len);
    let mut i: usize = 0;
    while i < len
        invariant
            i <= len <= s@.len(),
            n == len,
            i % 4 == 0 || i == len,
            r@.len() == i,
            forall|j: int| 0 <= j < i ==> r@[j] == s@[mirrored_index(n, j)],
        decreases len - i,
    {
        let end: usize = if len - i >= 4 {
            i + 4
        } else {
            len
        };
        let mut k: usize = end;
        while k > i
            invariant
                i <= k <= end <= len <= s@.len(),
                n == len,
                i % 4 == 0,
                end == (if i + 4 <= len { i + 4 } else { len as int }),
                r@.len() == i + (end - k),
                forall|j: int| 0 <= j < r@.len() ==> r@[j] == s@[mirrored_index(n, j)],
            decreases k - i,
        {
            k = k - 1;
            proof {
                lemma_mirror_in_group(n, i as int, r@.len() as int);
            }
            r.push(s[k]);
        }
        i = end;
    }
    assert(r@ =~= word_swapped(s@.take(len as int)));
    r
}

/// Name for what AES-128 in ECB mode with PKCS#7 padding makes of `data`
/// under `key`.
pub uninterp spec fn aes128_ecb_pkcs7(key: Seq<u8>, data: Seq<u8>) -> Seq<u8>;

/// Relies on `ecb::Encryptor::<aes::Aes128>::encrypt_padded_vec_mut::<Pkcs7>`:
/// the padded ciphertext, one 16-byte block more than the whole blocks of
/// `data` (PKCS#7 always pads). The key must be 16 bytes, as
/// `GenericArray::from_slice` asks.
#[verifier::external_body]
fn aes_ecb_encrypt(key: &[u8], data: &[u8]) -> (r: Vec<u8>)
    requires
        key@.len() == 16,
        data@.len() <= MAX_PAYLOAD,
    ensures
        r@ == aes128_ecb_pkcs7(key@, data@),
        r@.len() == 16 * (data@.len() / 16 + 1),
{
    let key = aes::cipher::generic_array::GenericArray::from_slice(key);
    let enc = ecb::Encryptor::<aes::Aes128>::new(key);
    enc.encrypt_padded_vec_mut::<aes::cipher::block_padding::Pkcs7>(data)
}

/// `data` obfuscated under `key`: both word-swapped, the data encrypted,
/// the ciphertext cut to the data's length and word-swapped back.
pub open spec fn obfuscated(key: Seq<u8>, data: Seq<u8>) -> Seq<u8> {
    word_swapped(aes128_ecb_pkcs7(word_swapped(key), word_swapped(data)).take(data.len() as int))
}

/// Obfuscates `data` under a 16-byte `key`; the result has the data's length.
pub fn obfuscate(key: &[u8], data: &[u8]) -> (r: Vec<u8>)
    requires
        key@.len() == 16,
        data@.len() <= MAX_PAYLOAD,
    ensures
        r@ == obfuscated(key@, data@),
        r@.len() == data@.len(),
{
    let k = swap_word_order(key, key.len());
    let d = swap_word_order(data, data.len());
    proof {
        assert(key@.take(key@.len() as int) =~= key@);
        assert(data@.take(data@.len() as int) =~= data@);
    }
    let c = aes_ecb_encrypt(k.as_slice(), d.as_slice());
    proof {
        vstd::arithmetic::div_mod::lemma_fundamental_div_mod(data@.len() as int, 16);
    }
    swap_word_order(c.as_slice(), data.len())
}

/// The fixed passphrase under which session keys are derived.
pub open spec fn passphrase() -> Seq<u8> {
    seq![0x49u8, 0x20, 0x61, 0x6d, 0x20, 0x6b, 0x65, 0x79, 0x2c, 0x20, 0x77, 0x61, 0x77, 0x61, 0x77, 0x61]
}

fn passphrase_bytes() -> (r: Vec<u8>)
    ensures
        r@ == passphrase(),
{
    let r: Vec<u8> = vec![0x49, 0x20, 0x61, 0x6d, 0x20, 0x6b, 0x65, 0x79, 0x2c, 0x20, 0x77, 0x61, 0x77, 0x61, 0x77, 0x61];
    assert(r@ =~= passphrase());
    r
}

/// The session key of a device: its info prefix followed by its identifier,
/// obfuscated under the passphrase.
pub open spec fn session_key_of(device_id: Seq<u8>, prefix: Seq<u8>) -> Seq<u8> {
    obfuscated(passphrase(), prefix + device_id)
}

/// Derives the 16-byte session key from a 12-byte device identifier and the
/// first four bytes of the identity reply.
pub fn derive_session_key(device_id: &[u8], prefix: &[u8]) -> (r: Vec<u8>)
    requires
        device_id@.len() == 12,
        prefix@.len() == 4,
    ensures
        r@ == session_key_of(device_id@, prefix@),
        r@.len() == 16,
{
    let mut material: Vec<u8> = Vec::with_capacity(16);
    material.extend_from_slice(prefix);
    material.extend_from_slice(device_id);
    assert(material@ =~= prefix@ + device_id@);
    let pass = passphrase_bytes();
    obfuscate(pass.as_slice(), material.as_slice())
}

/// Key derivation is a function of its inputs: equal identifiers and
/// prefixes give equal keys.
pub proof fn lemma_session_key_deterministic(
    id1: Seq<u8>,
    prefix1: Seq<u8>,
    id2: Seq<u8>,
    prefix2: Seq<u8>,
)
    requires
        id1 == id2,
        prefix1 == prefix2,
    ensures
        session_key_of(id1, prefix1) == session_key_of(id2, prefix2),
{
}

} // verus!
