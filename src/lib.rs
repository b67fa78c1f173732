//! RandomX building blocks: the Blake2b and AES byte generators, the float
//! helpers, the superscalar program generator and the VM.
pub mod helpers;
pub mod parameters;
pub mod superscalar;
pub mod vm;

use aes::cipher::{generic_array::GenericArray, BlockDecrypt, BlockEncrypt, KeyInit};
use aes::Aes128;
use blake2::{Blake2b512, Digest};
use parameters::{
    AES_GENERATOR_1R_K0, AES_GENERATOR_1R_K1, AES_GENERATOR_1R_K2, AES_GENERATOR_1R_K3,
    AES_GENERATOR_4R_K0, AES_GENERATOR_4R_K1, AES_GENERATOR_4R_K2, AES_GENERATOR_4R_K3,
    AES_GENERATOR_4R_K4, AES_GENERATOR_4R_K5, AES_GENERATOR_4R_K6, AES_GENERATOR_4R_K7,
    AES_HASH1R_STATE0, AES_HASH1R_STATE1, AES_HASH1R_STATE2, AES_HASH1R_STATE3, AES_HASH1R_XKEY0,
    AES_HASH1R_XKEY1, BLAKE_GENERATOR_SEED_MAX_SIZE,
};
use vstd::prelude::*;

verus! {

/// The AES-128 encryption of a 16-byte block under a 16-byte key.
pub uninterp spec fn aes128_encrypt(key: Seq<u8>, block: Seq<u8>) -> Seq<u8>;

/// The AES-128 decryption of a 16-byte block under a 16-byte key.
pub uninterp spec fn aes128_decrypt(key: Seq<u8>, block: Seq<u8>) -> Seq<u8>;

/// The 64-byte BLAKE2b digest of a byte string.
pub uninterp spec fn blake2b_512(data: Seq<u8>) -> Seq<u8>;

/// Relies on `aes::Aes128` (`KeyInit::new`, `BlockEncrypt::encrypt_block`):
/// one block encrypted under `key`.
#[verifier::external_body]
fn aes128_encrypt_block(key: &[u8; 16], block: &[u8; 16]) -> (r: [u8; 16])
    ensures
        r@ == aes128_encrypt(key@, block@),
{
    let cipher = Aes128::new(&GenericArray::from(*key));
    let mut state = GenericArray::from(*block);
    cipher.encrypt_block(&mut state);
    state.into()
}

/// Relies on `aes::Aes128` (`KeyInit::new`, `BlockDecrypt::decrypt_block`):
/// one block decrypted under `key`.
#[verifier::external_body]
fn aes128_decrypt_block(key: &[u8; 16], block: &[u8; 16]) -> (r: [u8; 16])
    ensures
        r@ == aes128_decrypt(key@, block@),
{
    let cipher = Aes128::new(&GenericArray::from(*key));
    let mut state = GenericArray::from(*block);
    cipher.decrypt_block(&mut state);
    state.into()
}

/// Relies on `blake2::Blake2b512` (`Digest::digest`): the 64-byte digest of `data`.
#[verifier::external_body]
fn blake2b_512_digest(data: &[u8; 64]) -> (r: [u8; 64])
    ensures
        r@ == blake2b_512(data@),
{
    let digest = Blake2b512::digest(data);
    let mut out = [0u8; 64];
    out.copy_from_slice(digest.as_slice());
    out
}

/// Column `c` (bytes `16c .. 16c + 16`) of a 64-byte state.
fn column(state: &[u8; 64], c: usize) -> (r: [u8; 16])
    requires
        c < 4,
    ensures
        r@ == state@.subrange(16 * c as int, 16 * c as int + 16),
{
    let mut r = [0u8; 16];
    let mut i: usize = 0;
    while i < 16
        invariant
            c < 4,
            i <= 16,
            forall|j: int| 0 <= j < i ==> r@[j] == state@[16 * c + j],
        decreases 16 - i,
    {
        r[i] = state[16 * c + i];
        i = i + 1;
    }
    assert(r@ =~= state@.subrange(16 * c as int, 16 * c as int + 16));
    r
}

/// The 64-byte state made of four columns, in order.
fn join_columns(c0: &[u8; 16], c1: &[u8; 16], c2: &[u8; 16], c3: &[u8; 16]) -> (r: [u8; 64])
    ensures
        r@ == c0@ + c1@ + c2@ + c3@,
{
    let mut r = [0u8; 64];
    let mut i: usize = 0;
    while i < 16
        invariant
            i <= 16,
            forall|j: int| 0 <= j < i ==> r@[j] == c0@[j],
            forall|j: int| 0 <= j < i ==> r@[16 + j] == c1@[j],
            forall|j: int| 0 <= j < i ==> r@[32 + j] == c2@[j],
            forall|j: int| 0 <= j < i ==> r@[48 + j] == c3@[j],
        decreases 16 - i,
    {
        r[i] = c0[i];
        r[16 + i] = c1[i];
        r[32 + i] = c2[i];
        r[48 + i] = c3[i];
        i = i + 1;
    }
    assert(r@ =~= c0@ + c1@ + c2@ + c3@);
    r
}

/// Bytes `16c .. 16c + 16` of a byte string.
pub open spec fn column_of(s: Seq<u8>, c: int) -> Seq<u8> {
    s.subrange(16 * c, 16 * c + 16)
}

/// Output of AesGenerator1R on a state: columns 0 and 2 decrypted, 1 and 3
/// encrypted, each with its own key.
pub open spec fn aes_generator_1r_spec(input: Seq<u8>) -> Seq<u8> {
    aes128_decrypt(AES_GENERATOR_1R_K0@, column_of(input, 0))
        + aes128_encrypt(AES_GENERATOR_1R_K1@, column_of(input, 1))
        + aes128_decrypt(AES_GENERATOR_1R_K2@, column_of(input, 2))
        + aes128_encrypt(AES_GENERATOR_1R_K3@, column_of(input, 3))
}

/// Four decryptions of a block, under `k0`, `k1`, `k2` then `k3`.
pub open spec fn decrypt4(k0: Seq<u8>, k1: Seq<u8>, k2: Seq<u8>, k3: Seq<u8>, b: Seq<u8>) -> Seq<u8> {
    aes128_decrypt(k3, aes128_decrypt(k2, aes128_decrypt(k1, aes128_decrypt(k0, b))))
}

/// Four encryptions of a block, under `k0`, `k1`, `k2` then `k3`.
pub open spec fn encrypt4(k0: Seq<u8>, k1: Seq<u8>, k2: Seq<u8>, k3: Seq<u8>, b: Seq<u8>) -> Seq<u8> {
    aes128_encrypt(k3, aes128_encrypt(k2, aes128_encrypt(k1, aes128_encrypt(k0, b))))
}

/// Output of AesGenerator4R on a state: columns 0 and 1 go through keys 0-3,
/// columns 2 and 3 through keys 4-7; even columns are decrypted, odd ones
/// encrypted.
pub open spec fn aes_generator_4r_spec(input: Seq<u8>) -> Seq<u8> {
    decrypt4(AES_GENERATOR_4R_K0@, AES_GENERATOR_4R_K1@, AES_GENERATOR_4R_K2@, AES_GENERATOR_4R_K3@, column_of(input, 0))
        + encrypt4(AES_GENERATOR_4R_K0@, AES_GENERATOR_4R_K1@, AES_GENERATOR_4R_K2@, AES_GENERATOR_4R_K3@, column_of(input, 1))
        + decrypt4(AES_GENERATOR_4R_K4@, AES_GENERATOR_4R_K5@, AES_GENERATOR_4R_K6@, AES_GENERATOR_4R_K7@, column_of(input, 2))
        + encrypt4(AES_GENERATOR_4R_K4@, AES_GENERATOR_4R_K5@, AES_GENERATOR_4R_K6@, AES_GENERATOR_4R_K7@, column_of(input, 3))
}

/// AesHash1R of one 64-byte block: each column of the block is the key of one
/// round on the fixed initial state, then two extra rounds under the fixed
/// extra keys finish each column.
pub open spec fn aes_hash1r_spec(block: Seq<u8>) -> Seq<u8> {
    let s0 = aes128_decrypt(column_of(block, 0), AES_HASH1R_STATE0@);
    let s1 = aes128_encrypt(column_of(block, 1), AES_HASH1R_STATE1@);
    let s2 = aes128_decrypt(column_of(block, 2), AES_HASH1R_STATE2@);
    let s3 = aes128_encrypt(column_of(block, 3), AES_HASH1R_STATE3@);
    aes128_encrypt(AES_HASH1R_XKEY1@, aes128_encrypt(AES_HASH1R_XKEY0@, s0))
        + aes128_decrypt(AES_HASH1R_XKEY1@, aes128_decrypt(AES_HASH1R_XKEY0@, s1))
        + aes128_encrypt(AES_HASH1R_XKEY1@, aes128_encrypt(AES_HASH1R_XKEY0@, s2))
        + aes128_decrypt(AES_HASH1R_XKEY1@, aes128_decrypt(AES_HASH1R_XKEY0@, s3))
}

/// AesGenerator1R produces a sequence of pseudo-random bytes: one iteration
/// maps the 64-byte state, four columns of 16 bytes, to the next state. The
/// columns are decrypted (columns 0, 2) or encrypted (columns 1, 3) with one
/// key each.
pub fn aes_generator_1r(input: [u8; 64]) -> (r: [u8; 64])
    ensures
        r@ == aes_generator_1r_spec(input@),
{
    let s0 = aes128_decrypt_block(&AES_GENERATOR_1R_K0, &column(&input, 0));
    let s1 = aes128_encrypt_block(&AES_GENERATOR_1R_K1, &column(&input, 1));
    let s2 = aes128_decrypt_block(&AES_GENERATOR_1R_K2, &column(&input, 2));
    let s3 = aes128_encrypt_block(&AES_GENERATOR_1R_K3, &column(&input, 3));
    join_columns(&s0, &s1, &s2, &s3)
}

/// AesGenerator4R works as AesGenerator1R with four rounds per column:
/// columns 0 and 1 use keys 0-3, columns 2 and 3 keys 4-7.
pub fn aes_generator_4r(input: [u8; 64]) -> (r: [u8; 64])
    ensures
        r@ == aes_generator_4r_spec(input@),
{
    let mut s0 = column(&input, 0);
    s0 = aes128_decrypt_block(&AES_GENERATOR_4R_K0, &s0);
    s0 = aes128_decrypt_block(&AES_GENERATOR_4R_K1, &s0);
    s0 = aes128_decrypt_block(&AES_GENERATOR_4R_K2, &s0);
    s0 = aes128_decrypt_block(&AES_GENERATOR_4R_K3, &s0);

    let mut s1 = column(&input, 1);
    s1 = aes128_encrypt_block(&AES_GENERATOR_4R_K0, &s1);
    s1 = aes128_encrypt_block(&AES_GENERATOR_4R_K1, &s1);
    s1 = aes128_encrypt_block(&AES_GENERATOR_4R_K2, &s1);
    s1 = aes128_encrypt_block(&AES_GENERATOR_4R_K3, &s1);

    let mut s2 = column(&input, 2);
    s2 = aes128_decrypt_block(&AES_GENERATOR_4R_K4, &s2);
    s2 = aes128_decrypt_block(&AES_GENERATOR_4R_K5, &s2);
    s2 = aes128_decrypt_block(&AES_GENERATOR_4R_K6, &s2);
    s2 = aes128_decrypt_block(&AES_GENERATOR_4R_K7, &s2);

    let mut s3 = column(&input, 3);
    s3 = aes128_encrypt_block(&AES_GENERATOR_4R_K4, &s3);
    s3 = aes128_encrypt_block(&AES_GENERATOR_4R_K5, &s3);
    s3 = aes128_encrypt_block(&AES_GENERATOR_4R_K6, &s3);
    s3 = aes128_encrypt_block(&AES_GENERATOR_4R_K7, &s3);

    join_columns(&s0, &s1, &s2, &s3)
}

/// AesHash1R of a single 64-byte block.
pub fn aes_hash1r(block: Vec<u8>) -> (r: [u8; 64])
    requires
        block@.len() == 64,
    ensures
        r@ == aes_hash1r_spec(block@),
{
    let mut input = [0u8; 64];
    let mut i: usize = 0;
    while i < 64
        invariant
            block@.len() == 64,
            i <= 64,
            forall|j: int| 0 <= j < i ==> input@[j] == block@[j],
        decreases 64 - i,
    {
        input[i] = block[i];
        i = i + 1;
    }
    assert(input@ =~= block@);

    let mut s0 = aes128_decrypt_block(&column(&input, 0), &AES_HASH1R_STATE0);
    let mut s1 = aes128_encrypt_block(&column(&input, 1), &AES_HASH1R_STATE1);
    let mut s2 = aes128_decrypt_block(&column(&input, 2), &AES_HASH1R_STATE2);
    let mut s3 = aes128_encrypt_block(&column(&input, 3), &AES_HASH1R_STATE3);

    s0 = aes128_encrypt_block(&AES_HASH1R_XKEY0, &s0);
    s0 = aes128_encrypt_block(&AES_HASH1R_XKEY1, &s0);
    s1 = aes128_decrypt_block(&AES_HASH1R_XKEY0, &s1);
    s1 = aes128_decrypt_block(&AES_HASH1R_XKEY1, &s1);
    s2 = aes128_encrypt_block(&AES_HASH1R_XKEY0, &s2);
    s2 = aes128_encrypt_block(&AES_HASH1R_XKEY1, &s2);
    s3 = aes128_decrypt_block(&AES_HASH1R_XKEY0, &s3);
    s3 = aes128_decrypt_block(&AES_HASH1R_XKEY1, &s3);

    join_columns(&s0, &s1, &s2, &s3)
}

/// A configuration that is rejected before any VM state is built.
#[derive(Clone, Copy, Debug, PartialEq, Eq, Structural)]
pub enum ConfigurationError {
    /// A program configuration is exactly 16 words
    WrongWordCount,
    /// A seed for the byte generator is at most 60 bytes
    SeedTooLong,
}

/// Byte `k` (`0..4`) of the little-endian encoding of a nonce as a 32-bit
/// two's-complement word.
pub open spec fn nonce_byte(nonce: i32, k: int) -> u8 {
    let n = nonce as u32;
    if k == 0 {
        (n % 0x100) as u8
    } else if k == 1 {
        (n / 0x100 % 0x100) as u8
    } else if k == 2 {
        (n / 0x1_0000 % 0x100) as u8
    } else {
        (n / 0x100_0000) as u8
    }
}

/// The first state of a generator: the seed padded with zeros to 60 bytes,
/// then the nonce in four little-endian bytes.
pub open spec fn seed_block(seed: Seq<u8>, nonce: i32) -> Seq<u8> {
    Seq::new(
        64,
        |i: int|
            if i < seed.len() {
                seed[i]
            } else if i < 60 {
                0u8
            } else {
                nonce_byte(nonce, i - 60)
            },
    )
}

/// The big-endian value of the four bytes of `s` at `i`.
pub open spec fn be_u32_at(s: Seq<u8>, i: int) -> int {
    s[i] * 0x100_0000 + s[i + 1] * 0x1_0000 + s[i + 2] * 0x100 + s[i + 3]
}

/// A reseedable cursor over 64-byte blocks: once the cursor reaches the end of
/// the block, the block is replaced by its BLAKE2b-512 digest.
pub struct BlakeGenerator {
    // The first 60 bytes hold the seed, the last 4 the nonce; after a reseed
    // the whole block is the digest of the previous one.
    pub data: [u8; 64],
    // Position of the next byte to hand out; 64 when the block is used up.
    data_index: usize,
}

impl BlakeGenerator {
    /// The current 64-byte block.
    pub closed spec fn block(&self) -> Seq<u8> {
        self.data@
    }

    /// The position of the next byte in the block.
    pub closed spec fn cursor(&self) -> int {
        self.data_index as int
    }

    /// The cursor stays within the block.
    pub closed spec fn wf(&self) -> bool {
        self.data_index <= 64
    }

    /// A generator on a seed of at most 60 bytes and a nonce. Its block is
    /// used up, so the first read reseeds.
    pub fn from_seed(seed: Vec<u8>, nonce: i32) -> (r: Self)
        requires
            seed@.len() <= BLAKE_GENERATOR_SEED_MAX_SIZE,
        ensures
            r.wf(),
            r.block() == seed_block(seed@, nonce),
            r.cursor() == 64,
    {
        let mut data: [u8; 64] = [0; 64];
        let mut i: usize = 0;
        while i < seed.len()
            invariant
                seed@.len() <= 60,
                i <= seed@.len(),
                forall|j: int| 0 <= j < i ==> data@[j] == seed@[j],
                forall|j: int| i <= j < 64 ==> data@[j] == 0,
            decreases seed@.len() - i,
        {
            data[i] = seed[i];
            i = i + 1;
        }
        let n: u32 = nonce as u32;
        data[60] = (n & 0xff) as u8;
        data[61] = ((n >> 8) & 0xff) as u8;
        data[62] = ((n >> 16) & 0xff) as u8;
        data[63] = (n >> 24) as u8;
        proof {
            assert((n & 0xff) as u8 == (n % 0x100) as u8) by (bit_vector);
            assert(((n >> 8) & 0xff) as u8 == (n / 0x100 % 0x100) as u8) by (bit_vector);
            assert(((n >> 16) & 0xff) as u8 == (n / 0x1_0000 % 0x100) as u8) by (bit_vector);
            assert((n >> 24) as u8 == (n / 0x100_0000) as u8) by (bit_vector);
            assert(data@ =~= seed_block(seed@, nonce));
        }
        BlakeGenerator { data, data_index: 64 }
    }

    /// A generator on a seed and a nonce, or `SeedTooLong` when the seed
    /// exceeds 60 bytes.
    pub fn try_from_seed(seed: Vec<u8>, nonce: i32) -> (r: Result<Self, ConfigurationError>)
        ensures
            seed@.len() <= BLAKE_GENERATOR_SEED_MAX_SIZE <==> r is Ok,
            r matches Ok(g) ==> g.wf() && g.block() == seed_block(seed@, nonce) && g.cursor() == 64,
            r matches Err(e) ==> e == ConfigurationError::SeedTooLong,
    {
        if seed.len() > BLAKE_GENERATOR_SEED_MAX_SIZE as usize {
            Err(ConfigurationError::SeedTooLong)
        } else {
            Ok(Self::from_seed(seed, nonce))
        }
    }

    /// Replace the block by its BLAKE2b-512 digest and rewind the cursor.
    pub fn update_state(&mut self)
        ensures
            final(self).wf(),
            final(self).block() == blake2b_512(old(self).block()),
            final(self).cursor() == 0,
    {
        self.data = blake2b_512_digest(&self.data);
        self.data_index = 0;
    }

    /// The next byte; the block is reseeded first when it is used up.
    pub fn get_byte(&mut self) -> (r: u8)
        requires
            old(self).wf(),
        ensures
            final(self).wf(),
            old(self).cursor() + 1 > 64 ==> {
                &&& final(self).block() == blake2b_512(old(self).block())
                &&& r == final(self).block()[0]
                &&& final(self).cursor() == 1
            },
            old(self).cursor() + 1 <= 64 ==> {
                &&& final(self).block() == old(self).block()
                &&& r == old(self).block()[old(self).cursor()]
                &&& final(self).cursor() == old(self).cursor() + 1
            },
    {
        if self.data_index + 1 > 64 {
            self.update_state();
        }
        let r = self.data[self.data_index];
        self.data_index = self.data_index + 1;
        r
    }

    /// The next four bytes as a big-endian word; the block is reseeded first
    /// when fewer than four bytes are left in it.
    pub fn get_u32(&mut self) -> (r: u32)
        requires
            old(self).wf(),
        ensures
            final(self).wf(),
            old(self).cursor() + 4 > 64 ==> {
                &&& final(self).block() == blake2b_512(old(self).block())
                &&& r as int == be_u32_at(final(self).block(), 0)
                &&& final(self).cursor() == 4
            },
            old(self).cursor() + 4 <= 64 ==> {
                &&& final(self).block() == old(self).block()
                &&& r as int == be_u32_at(old(self).block(), old(self).cursor())
                &&& final(self).cursor() == old(self).cursor() + 4
            },
    {
        if self.data_index + 4 > 64 {
            self.update_state();
        }
        let i = self.data_index;
        let r: u32 = (self.data[i] as u32) * 0x100_0000 + (self.data[i + 1] as u32) * 0x1_0000
            + (self.data[i + 2] as u32) * 0x100 + (self.data[i + 3] as u32);
        self.data_index = i + 4;
        r
    }
}

} // verus!
