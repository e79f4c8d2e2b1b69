//! Password encoding policies applied before a credential is submitted.

use aes::cipher::BlockEncryptMut;
use aes::cipher::KeyInit;
use base64::Engine;
use vstd::prelude::*;
use vstd::utf8::encode_utf8;

verus! {

/// Size in bytes of one cipher block.
pub const BLOCK_SIZE: usize = 16;

/// Number of pad bytes added to a message of `n` bytes: always between 1 and 16.
pub open spec fn pad_len(n: nat) -> nat {
    (16 - (n % 16)) as nat
}

/// The message followed by `pad_len` bytes, each holding the value `pad_len`.
pub open spec fn padded(msg: Seq<u8>) -> Seq<u8> {
    msg + Seq::new(pad_len(msg.len()), |_i: int| pad_len(msg.len()) as u8)
}

/// Drops as many trailing bytes as the value of the last byte says.
pub open spec fn unpadded(data: Seq<u8>) -> Seq<u8> {
    if data.len() == 0 || data.last() as int > data.len() {
        data
    } else {
        data.subrange(0, data.len() - data.last() as int)
    }
}

/// What AES-128 makes of one 16-byte block under a 16-byte key.
pub uninterp spec fn aes128_block(key: Seq<u8>, block: Seq<u8>) -> Seq<u8>;

/// The first `n` blocks of `data`, each encrypted on its own (ECB mode).
pub open spec fn ecb_blocks(key: Seq<u8>, data: Seq<u8>, n: nat) -> Seq<u8>
    decreases n,
{
    if n == 0 {
        Seq::empty()
    } else {
        ecb_blocks(key, data, (n - 1) as nat) + aes128_block(
            key,
            data.subrange(16 * (n - 1), 16 * n as int),
        )
    }
}

/// ECB encryption of a block-aligned message.
pub open spec fn ecb_encrypted(key: Seq<u8>, data: Seq<u8>) -> Seq<u8> {
    ecb_blocks(key, data, data.len() / 16)
}

/// The standard-alphabet, padded Base64 text of some bytes.
pub uninterp spec fn base64_standard(data: Seq<u8>) -> Seq<char>;

/// The wire form of a password under the block-cipher policy: padded, encrypted
/// block by block, Base64-encoded, and the Base64 text encoded once more.
pub open spec fn block_cipher_encoded(key: Seq<u8>, password: Seq<char>) -> Seq<char> {
    base64_standard(
        encode_utf8(base64_standard(ecb_encrypted(key, padded(encode_utf8(password))))),
    )
}

/// How a portal wants the password transformed before submission.
#[derive(Debug)]
pub enum PasswordPolicy {
    /// The password is sent as it is.
    Plain,
    /// AES-128 in ECB mode under a fixed key, with block padding and two
    /// rounds of Base64.
    BlockCipher { key: [u8; 16] },
}

/// The text that a policy turns a password into.
pub open spec fn encoded_password(policy: PasswordPolicy, password: Seq<char>) -> Seq<char> {
    match policy {
        PasswordPolicy::Plain => password,
        PasswordPolicy::BlockCipher { key } => block_cipher_encoded(key@, password),
    }
}

/// Relies on `ecb::Encryptor<aes::Aes128>::encrypt_block_mut`: AES-128 of one
/// 16-byte block, which is again 16 bytes long.
#[verifier::external_body]
fn aes128_encrypt_block(key: &[u8; 16], block: &[u8]) -> (r: Vec<u8>)
    requires
        block@.len() == 16,
    ensures
        r@ == aes128_block(key@, block@),
        r@.len() == 16,
{
    let k = aes::cipher::generic_array::GenericArray::from_slice(key.as_slice());
    let mut encryptor = ecb::Encryptor::<aes::Aes128>::new(k);
    let mut b = aes::Block::clone_from_slice(block);
    encryptor.encrypt_block_mut(&mut b);
    b.to_vec()
}

/// Relies on `base64::engine::general_purpose::STANDARD.encode`: the padded
/// standard-alphabet Base64 text of the bytes.
#[verifier::external_body]
fn base64_encode(data: &[u8]) -> (r: String)
    ensures
        r@ == base64_standard(data@),
{
    base64::engine::general_purpose::STANDARD.encode(data)
}

/// Appends the block padding to a message.
pub fn pad_message(msg: &[u8]) -> (r: Vec<u8>)
    ensures
        r@ == padded(msg@),
        r@.len() % 16 == 0,
{
    let n: usize = BLOCK_SIZE - (msg.len() % BLOCK_SIZE);
    let mut out: Vec<u8> = Vec::new();
    let mut i: usize = 0;
    while i < msg.len()
        invariant
            i <= msg@.len(),
            out@ == msg@.subrange(0, i as int),
        decreases msg@.len() - i,
    {
        out.push(msg[i]);
        i = i + 1;
    }
    let mut j: usize = 0;
    while j < n
        invariant
            n == pad_len(msg@.len() as nat),
            j <= n,
            out@ == msg@ + Seq::new(j as nat, |_i: int| n as u8),
        decreases n - j,
    {
        out.push(n as u8);
        j = j + 1;
        assert(out@ =~= msg@ + Seq::new(j as nat, |_i: int| n as u8));
    }
    assert(out@ =~= padded(msg@));
    out
}

/// Encrypts a block-aligned message block by block.
pub fn ecb_encrypt(key: &[u8; 16], data: &[u8]) -> (r: Vec<u8>)
    requires
        data@.len() % 16 == 0,
    ensures
        r@ == ecb_encrypted(key@, data@),
        r@.len() == data@.len(),
{
    let mut out: Vec<u8> = Vec::new();
    let mut i: usize = 0;
    while i < data.len()
        invariant
            data@.len() % 16 == 0,
            i % 16 == 0,
            i <= data@.len(),
            out@ == ecb_blocks(key@, data@, (i / 16) as nat),
            out@.len() == i,
        decreases data@.len() - i,
    {
        let block = vstd::slice::slice_subrange(data, i, i + 16);
        let enc = aes128_encrypt_block(key, block);
        let mut k: usize = 0;
        let ghost before = out@;
        while k < 16
            invariant
                k <= 16,
                enc@.len() == 16,
                out@ == before + enc@.subrange(0, k as int),
            decreases 16 - k,
        {
            out.push(enc[k]);
            k = k + 1;
            assert(out@ =~= before + enc@.subrange(0, k as int));
        }
        assert(enc@.subrange(0, 16) =~= enc@);
        assert(((i + 16) / 16) as nat - 1 == (i / 16) as nat);
        i = i + 16;
    }
    out
}

/// Transforms a password as the policy asks.
pub fn encode_password(policy: &PasswordPolicy, password: &str) -> (r: String)
    ensures
        r@ == encoded_password(*policy, password@),
{
    match policy {
        PasswordPolicy::Plain => password.to_owned(),
        PasswordPolicy::BlockCipher { key } => {
            let bytes = password.as_bytes();
            let padded_bytes = pad_message(bytes);
            let cipher = ecb_encrypt(key, padded_bytes.as_slice());
            let first = base64_encode(cipher.as_slice());
            base64_encode(first.as_str().as_bytes())
        },
    }
}

/// Padding always yields whole blocks, adds at least one byte, and stripping the
/// pad (by the value of the last byte) gives the message back exactly.
pub proof fn lemma_padding_round_trip(msg: Seq<u8>)
    ensures
        padded(msg).len() % 16 == 0,
        padded(msg).len() > msg.len(),
        unpadded(padded(msg)) == msg,
{
    let p = padded(msg);
    let n = pad_len(msg.len());
    assert(1 <= n <= 16);
    assert(p.len() == msg.len() + n);
    assert(p.last() == n as u8);
    assert(p.subrange(0, p.len() - n) =~= msg);
    assert(p.len() % 16 == 0) by {
        assert((msg.len() + (16 - msg.len() % 16)) % 16 == 0) by (nonlinear_arith);
    }
}

/// Messages that differ are padded differently.
pub proof fn lemma_padding_injective(a: Seq<u8>, b: Seq<u8>)
    requires
        padded(a) == padded(b),
    ensures
        a == b,
{
    lemma_padding_round_trip(a);
    lemma_padding_round_trip(b);
}

/// Encoding is a function of the policy and the password alone: the same
/// password under the same key always gives the same text. Under the
/// block-cipher policy, different passwords never share a padded plaintext, so
/// they can only collide if the cipher or Base64 did.
pub proof fn lemma_encoding_deterministic(
    policy: PasswordPolicy,
    first: Seq<char>,
    second: Seq<char>,
)
    ensures
        first == second ==> encoded_password(policy, first) == encoded_password(policy, second),
        first != second ==> padded(encode_utf8(first)) != padded(encode_utf8(second)),
{
    if first != second && padded(encode_utf8(first)) == padded(encode_utf8(second)) {
        lemma_padding_injective(encode_utf8(first), encode_utf8(second));
        vstd::utf8::encode_utf8_decode_utf8(first);
        vstd::utf8::encode_utf8_decode_utf8(second);
    }
}

} // verus!
