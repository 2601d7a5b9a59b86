use vstd::prelude::*;

verus! {

/// Rotation of a 64-bit word left by `s` bit positions, for `s < 64`.
pub open spec fn rotl64(x: u64, s: u64) -> u64
    recommends
        s < 64,
{
    (x << s) | (x >> (((64 - s) % 64) as u64))
}

/// Rotation of a 64-bit word right by `s` bit positions, for `s < 64`.
pub open spec fn rotr64(x: u64, s: u64) -> u64
    recommends
        s < 64,
{
    (x >> s) | (x << (((64 - s) % 64) as u64))
}

/// Left rotation, computed with shifts.
pub fn rotate_left64(x: u64, s: u64) -> (r: u64)
    requires
        s < 64,
    ensures
        r == rotl64(x, s),
{
    if s == 0 {
        proof {
            assert((x << 0u64) | (x >> 0u64) == x) by (bit_vector);
        }
        x
    } else {
        (x << s) | (x >> (64 - s))
    }
}

/// Right rotation, computed with shifts.
pub fn rotate_right64(x: u64, s: u64) -> (r: u64)
    requires
        s < 64,
    ensures
        r == rotr64(x, s),
{
    if s == 0 {
        proof {
            assert((x >> 0u64) | (x << 0u64) == x) by (bit_vector);
        }
        x
    } else {
        (x >> s) | (x << (64 - s))
    }
}

/// The closed set of reversible bit-mixing functions over 64-bit words.
/// Each variant is a bijection on the 64-bit domain for any fixed key.
#[derive(Clone, Copy, PartialEq, Eq, Structural, Debug)]
pub enum Transform {
    MethodA,
    MethodB,
    MethodC,
}

/// Variant A: XOR with the key and a shifted key, rotations by the key's
/// low four bits and by fixed amounts.
pub open spec fn spec_encrypt_a(data: u64, key: u64) -> u64 {
    let d1 = data ^ key;
    let d2 = rotl64(d1, key & 0xF);
    let d3 = d2 ^ (key << 3);
    let d4 = rotl64(d3, 7);
    d4 ^ rotl64(key, 11)
}

/// Inverse of variant A: each step undone in reversed order.
pub open spec fn spec_decrypt_a(data: u64, key: u64) -> u64 {
    let d1 = data ^ rotl64(key, 11);
    let d2 = rotr64(d1, 7);
    let d3 = d2 ^ (key << 3);
    let d4 = rotr64(d3, key & 0xF);
    d4 ^ key
}

/// Variant B: XOR with rotated copies of the key, fixed rotation amounts.
pub open spec fn spec_encrypt_b(data: u64, key: u64) -> u64 {
    let d1 = data ^ key;
    let d2 = rotl64(d1, 13);
    let d3 = d2 ^ rotl64(key, 5);
    let d4 = rotl64(d3, 9);
    d4 ^ rotl64(key, 17)
}

/// Inverse of variant B.
pub open spec fn spec_decrypt_b(data: u64, key: u64) -> u64 {
    let d1 = data ^ rotl64(key, 17);
    let d2 = rotr64(d1, 9);
    let d3 = d2 ^ rotl64(key, 5);
    let d4 = rotr64(d3, 13);
    d4 ^ key
}

/// Variant C: XOR with the key and its recombined halves, rotation by the
/// key modulo 31, XOR with a shifted mix of the key.
pub open spec fn spec_encrypt_c(data: u64, key: u64) -> u64 {
    let d1 = data ^ key;
    let d2 = d1 ^ (((key >> 32) << 32) | (key & 0xFFFFFFFF));
    let d3 = rotl64(d2, (key % 31) as u64);
    d3 ^ (key ^ (key >> 11))
}

/// Inverse of variant C.
pub open spec fn spec_decrypt_c(data: u64, key: u64) -> u64 {
    let d1 = data ^ (key ^ (key >> 11));
    let d2 = rotr64(d1, (key % 31) as u64);
    let d3 = d2 ^ (((key >> 32) << 32) | (key & 0xFFFFFFFF));
    d3 ^ key
}

/// What `encrypt` returns, for each variant.
pub open spec fn spec_encrypt(t: Transform, data: u64, key: u64) -> u64 {
    match t {
        Transform::MethodA => spec_encrypt_a(data, key),
        Transform::MethodB => spec_encrypt_b(data, key),
        Transform::MethodC => spec_encrypt_c(data, key),
    }
}

/// What `decrypt` returns, for each variant.
pub open spec fn spec_decrypt(t: Transform, data: u64, key: u64) -> u64 {
    match t {
        Transform::MethodA => spec_decrypt_a(data, key),
        Transform::MethodB => spec_decrypt_b(data, key),
        Transform::MethodC => spec_decrypt_c(data, key),
    }
}

proof fn lemma_round_trip_a(data: u64, key: u64)
    by (bit_vector)
    ensures
        spec_decrypt_a(spec_encrypt_a(data, key), key) == data,
{
}

proof fn lemma_round_trip_b(data: u64, key: u64)
    by (bit_vector)
    ensures
        spec_decrypt_b(spec_encrypt_b(data, key), key) == data,
{
}

proof fn lemma_round_trip_c(data: u64, key: u64)
    by (bit_vector)
    ensures
        spec_decrypt_c(spec_encrypt_c(data, key), key) == data,
{
}

/// Round-trip law: for every variant and for all 64-bit `data` and `key`,
/// decrypting an encrypted word restores the word exactly.
pub proof fn lemma_round_trip(t: Transform, data: u64, key: u64)
    ensures
        spec_decrypt(t, spec_encrypt(t, data, key), key) == data,
{
    match t {
        Transform::MethodA => lemma_round_trip_a(data, key),
        Transform::MethodB => lemma_round_trip_b(data, key),
        Transform::MethodC => lemma_round_trip_c(data, key),
    }
}

impl Transform {
    /// Obfuscate a 64-bit word under `key`.
    pub fn encrypt(&self, data: u64, key: u64) -> (r: u64)
        ensures
            r == spec_encrypt(*self, data, key),
    {
        match self {
            Transform::MethodA => {
                proof {
                    assert((key & 0xF) < 64) by (bit_vector);
                }
                let mut d: u64 = data ^ key;
                d = rotate_left64(d, key & 0xF);
                d = d ^ (key << 3);
                d = rotate_left64(d, 7);
                d ^ rotate_left64(key, 11)
            }
            Transform::MethodB => {
                let mut d: u64 = data ^ key;
                d = rotate_left64(d, 13);
                d = d ^ rotate_left64(key, 5);
                d = rotate_left64(d, 9);
                d ^ rotate_left64(key, 17)
            }
            Transform::MethodC => {
                let mut d: u64 = data ^ key;
                let upper: u64 = key >> 32;
                let lower: u64 = key & 0xFFFFFFFF;
                d = d ^ ((upper << 32) | lower);
                d = rotate_left64(d, key % 31);
                d ^ (key ^ (key >> 11))
            }
        }
    }

    /// Restore a word obfuscated by `encrypt` under the same key: each step
    /// of the variant is undone in reversed order.
    pub fn decrypt(&self, data: u64, key: u64) -> (r: u64)
        ensures
            r == spec_decrypt(*self, data, key),
    {
        match self {
            Transform::MethodA => {
                proof {
                    assert((key & 0xF) < 64) by (bit_vector);
                }
                let mut d: u64 = data ^ rotate_left64(key, 11);
                d = rotate_right64(d, 7);
                d = d ^ (key << 3);
                d = rotate_right64(d, key & 0xF);
                d ^ key
            }
            Transform::MethodB => {
                let mut d: u64 = data ^ rotate_left64(key, 17);
                d = rotate_right64(d, 9);
                d = d ^ rotate_left64(key, 5);
                d = rotate_right64(d, 13);
                d ^ key
            }
            Transform::MethodC => {
                let mut d: u64 = data ^ (key ^ (key >> 11));
                d = rotate_right64(d, key % 31);
                let upper: u64 = key >> 32;
                let lower: u64 = key & 0xFFFFFFFF;
                d = d ^ ((upper << 32) | lower);
                d ^ key
            }
        }
    }
}

/// Map an index drawn from the selection source to a variant of the closed set.
pub fn transform_of_index(i: usize) -> (r: Transform)
    ensures
        i == 0 ==> r == Transform::MethodA,
        i == 1 ==> r == Transform::MethodB,
        i >= 2 ==> r == Transform::MethodC,
{
    if i == 0 {
        Transform::MethodA
    } else if i == 1 {
        Transform::MethodB
    } else {
        Transform::MethodC
    }
}

} // verus!
