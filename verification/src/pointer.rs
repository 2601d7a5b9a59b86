use vstd::prelude::*;
use crate::entropy::{now_nanos, random_below};
use crate::transform::{Transform, lemma_round_trip, spec_decrypt, spec_encrypt, transform_of_index};

verus! {

/// An owning pointer that keeps, beside its owning box, an obfuscated copy
/// of the pointee's address: construction captures the address of the owned
/// heap allocation, obfuscates it under a key with one variant of the
/// closed transform set, and stores the obfuscated word. Every access
/// decodes that word anew, and well-formedness ties the decoded word to the
/// captured address for the object's whole life. The box itself remains the
/// owning handle through which the pointee is reached and released, so the
/// address is kept obfuscated in addition to it, not in place of it.
///
/// The obfuscation resists casual inspection only; it is not a cipher. The
/// allocation is owned through the box, so destruction consumes the value
/// and releases the backing memory exactly once, and use after destruction
/// is impossible at the type level.
pub struct EncryptedPtr<T> {
    value: Box<T>,
    encrypted_ptr: u64,
    key: u64,
    method: Transform,
    addr: Ghost<u64>,
}

impl<T> EncryptedPtr<T> {
    /// The owned pointee.
    pub closed spec fn pointee(self) -> T {
        *self.value
    }

    /// The obfuscated word stored in place of the address.
    pub closed spec fn spec_encrypted(self) -> u64 {
        self.encrypted_ptr
    }

    /// The key chosen at construction, fixed for the object's lifetime.
    pub closed spec fn spec_key(self) -> u64 {
        self.key
    }

    /// The transform variant chosen at construction, fixed for the
    /// object's lifetime.
    pub closed spec fn spec_method(self) -> Transform {
        self.method
    }

    /// The plaintext address captured at construction.
    pub closed spec fn spec_addr(self) -> u64 {
        self.addr@
    }

    /// What decoding the stored word yields.
    pub open spec fn decoded(self) -> u64 {
        spec_decrypt(self.spec_method(), self.spec_encrypted(), self.spec_key())
    }

    /// Well-formedness: the stored word is the encoding of the captured
    /// address, so decoding restores that address exactly.
    pub open spec fn wf(self) -> bool {
        &&& self.spec_encrypted() == spec_encrypt(
            self.spec_method(),
            self.spec_addr(),
            self.spec_key(),
        )
        &&& self.decoded() == self.spec_addr()
    }

    /// Produce a key from the wall clock: nanoseconds since the epoch,
    /// truncated to 64 bits. Not cryptographically secure, and not
    /// guaranteed unpredictable; it is the sole entropy source here.
    pub fn generate_key() -> u64 {
        now_nanos()
    }

    /// Take ownership of a heap allocation and keep an obfuscated copy of
    /// its address: pick a transform variant at random, draw a key, encode
    /// the address once.
    pub fn new(value: Box<T>) -> (r: Self)
        ensures
            r.wf(),
            r.pointee() == *value,
    {
        let key: u64 = Self::generate_key();
        let idx: usize = random_below(3);
        let method: Transform = transform_of_index(idx);
        let addr: u64 = box_addr(&value);
        let encrypted_ptr: u64 = method.encrypt(addr, key);
        proof {
            lemma_round_trip(method, addr, key);
        }
        EncryptedPtr { value, encrypted_ptr, key, method, addr: Ghost(addr) }
    }

    /// Move a value onto the heap and wrap it as `new` does. The primary
    /// safe entry point: the wrapped pointee is exactly the given value.
    pub fn from_owned_value(v: T) -> (r: Self)
        ensures
            r.wf(),
            r.pointee() == v,
    {
        Self::new(Box::new(v))
    }

    /// Decode the stored word. On a well-formed instance this restores the
    /// address captured at construction.
    pub fn decrypt_ptr(&self) -> (r: u64)
        ensures
            r == self.decoded(),
            self.wf() ==> r == self.spec_addr(),
    {
        self.method.decrypt(self.encrypted_ptr, self.key)
    }

    /// The obfuscated word exactly as stored: what the debug rendering
    /// shows in hexadecimal.
    pub fn encrypted_value(&self) -> (r: u64)
        ensures
            r == self.spec_encrypted(),
    {
        self.encrypted_ptr
    }

    /// Read access to the pointee. The stored word is decoded on every
    /// call; no decoded value is cached across calls.
    pub fn access(&self) -> (r: &T)
        ensures
            *r == self.pointee(),
    {
        let _decoded: u64 = self.decrypt_ptr();
        &*self.value
    }

    /// Exclusive access to the pointee. The stored word is decoded on
    /// every call. Only the pointee's contents may change through the
    /// returned reference: the obfuscated word, the key, the variant and
    /// the captured address stay fixed, so well-formedness is preserved.
    pub fn access_mut(&mut self) -> (r: &mut T)
        ensures
            *r == old(self).pointee(),
            final(self).pointee() == *final(r),
            final(self).spec_encrypted() == old(self).spec_encrypted(),
            final(self).spec_key() == old(self).spec_key(),
            final(self).spec_method() == old(self).spec_method(),
            final(self).spec_addr() == old(self).spec_addr(),
    {
        let _decoded: u64 = self.decrypt_ptr();
        &mut *self.value
    }

    /// End the object's life: decode once more, then release. Taking the
    /// receiver by value runs the pointee's destructor and frees the
    /// backing allocation exactly once, and makes any further use a
    /// compile-time error rather than a runtime hazard.
    pub fn destroy(self) {
        let _decoded: u64 = self.decrypt_ptr();
    }
}

impl<T: core::fmt::Debug> EncryptedPtr<T> {
    /// Diagnostic rendering of the obfuscated word beside the decoded
    /// pointee: a deliberate plaintext leak, for diagnostics only. The
    /// text opens with a fixed label followed by the stored word as a
    /// fixed-width hexadecimal integer; the pointee's own rendering,
    /// which is the pointee type's affair, follows after it.
    pub fn debug_representation(&self) -> (r: String)
        ensures
            r@.len() >= 50,
            r@.subrange(0, 34) == "EncryptedPtr { encrypted_value: 0x"@,
            r@.subrange(34, 50) == hex16(self.spec_encrypted()),
    {
        render_debug(self.encrypted_ptr, &*self.value)
    }
}

/// The lowercase hexadecimal digit of one nibble.
pub open spec fn hex_digit_of(n: u64) -> char
    recommends
        n < 16,
{
    if n == 0 {
        '0'
    } else if n == 1 {
        '1'
    } else if n == 2 {
        '2'
    } else if n == 3 {
        '3'
    } else if n == 4 {
        '4'
    } else if n == 5 {
        '5'
    } else if n == 6 {
        '6'
    } else if n == 7 {
        '7'
    } else if n == 8 {
        '8'
    } else if n == 9 {
        '9'
    } else if n == 10 {
        'a'
    } else if n == 11 {
        'b'
    } else if n == 12 {
        'c'
    } else if n == 13 {
        'd'
    } else if n == 14 {
        'e'
    } else {
        'f'
    }
}

/// The sixteen lowercase hexadecimal digits of a 64-bit word, most
/// significant nibble first.
pub open spec fn hex16(x: u64) -> Seq<char> {
    Seq::new(16, |i: int| hex_digit_of((x >> (((15 - i) * 4) as u64)) & 0xF))
}

/// Relies on core::ptr::from_ref and the pointer's addr method: the numeric
/// address of the box's pointee, as one 64-bit word. The value depends on
/// what the allocator handed out, so nothing is stated of it.
#[verifier::external_body]
fn box_addr<T>(b: &Box<T>) -> u64 {
    core::ptr::from_ref::<T>(&**b).addr() as u64
}

/// Relies on the format macro with core::fmt::Debug: a struct-style text
/// that opens with the fixed label, then the word rendered `{:#018x}` (the
/// `0x` prefix and sixteen zero-padded lowercase hexadecimal digits), then
/// the pointee's own rendering. The label and the digits are stated;
/// nothing is stated of the pointee's text.
#[verifier::external_body]
fn render_debug<T: core::fmt::Debug>(encrypted: u64, v: &T) -> (r: String)
    ensures
        r@.len() >= 50,
        r@.subrange(0, 34) == "EncryptedPtr { encrypted_value: 0x"@,
        r@.subrange(34, 50) == hex16(encrypted),
{
    format!("EncryptedPtr {{ encrypted_value: {:#018x}, pointed_value: {:?} }}", encrypted, v)
}

} // verus!
