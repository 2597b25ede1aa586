use vstd::prelude::*;

use crate::crypto::wipe_bytes;
use crate::error::KmsError;

verus! {

/// Largest size a secure buffer may have: a page-aligned region of this
/// size fits `isize` on every supported target once rounded up to a page.
pub const MAX_SECURE_LEN: usize = 0x7fff_f000;

/// Key material held in memory that is wiped when the buffer goes away.
///
/// The memory is an ordinary heap allocation: it is neither page-aligned nor
/// locked against swapping, since locking needs raw-pointer system calls.
/// The type has no `Clone` or `Copy`: secret bytes are never duplicated by
/// copying the buffer, only borrowed through `expose`.
pub struct SecureBuffer {
    bytes: Vec<u8>,
}

impl View for SecureBuffer {
    type V = Seq<u8>;

    closed spec fn view(&self) -> Seq<u8> {
        self.bytes@
    }
}

/// A sequence of `n` zero bytes.
pub open spec fn zeros(n: nat) -> Seq<u8> {
    Seq::new(n, |_i: int| 0u8)
}

impl SecureBuffer {
    /// A buffer never holds more than `MAX_SECURE_LEN` bytes.
    #[verifier::type_invariant]
    spec fn inv(&self) -> bool {
        self.bytes@.len() <= MAX_SECURE_LEN
    }

    /// A zero-filled buffer of `size` bytes.
    pub fn new(size: usize) -> (r: Result<SecureBuffer, KmsError>)
        ensures
            size <= MAX_SECURE_LEN ==> (r matches Ok(b) && b@ == zeros(size as nat)),
            size > MAX_SECURE_LEN ==> r == Err::<SecureBuffer, KmsError>(KmsError::Allocation),
    {
        if size > MAX_SECURE_LEN {
            return Err(KmsError::Allocation);
        }
        let mut bytes: Vec<u8> = Vec::with_capacity(size);
        let mut i: usize = 0;
        while i < size
            invariant
                i <= size,
                bytes@ == zeros(i as nat),
            decreases size - i,
        {
            bytes.push(0u8);
            i = i + 1;
        }
        Ok(SecureBuffer { bytes })
    }

    /// A buffer holding a copy of `data`.
    pub fn from_slice(data: &[u8]) -> (r: Result<SecureBuffer, KmsError>)
        ensures
            data@.len() <= MAX_SECURE_LEN ==> (r matches Ok(b) && b@ == data@),
            data@.len() > MAX_SECURE_LEN ==> r == Err::<SecureBuffer, KmsError>(KmsError::Allocation),
    {
        if data.len() > MAX_SECURE_LEN {
            return Err(KmsError::Allocation);
        }
        let mut bytes: Vec<u8> = Vec::with_capacity(data.len());
        let mut i: usize = 0;
        while i < data.len()
            invariant
                i <= data@.len(),
                bytes@ == data@.subrange(0, i as int),
            decreases data@.len() - i,
        {
            bytes.push(data[i]);
            i = i + 1;
            assert(bytes@ =~= data@.subrange(0, i as int));
        }
        assert(bytes@ =~= data@);
        Ok(SecureBuffer { bytes })
    }

    /// The number of bytes held.
    pub fn len(&self) -> (r: usize)
        ensures
            r == self@.len(),
            r <= MAX_SECURE_LEN,
    {
        proof {
            use_type_invariant(self);
        }
        self.bytes.len()
    }

    /// A borrowed view of the bytes.
    pub fn expose(&self) -> (r: &[u8])
        ensures
            r@ == self@,
            r@.len() <= MAX_SECURE_LEN,
    {
        proof {
            use_type_invariant(self);
        }
        self.bytes.as_slice()
    }

    /// Overwrites every byte with zero, keeping the length.
    pub fn wipe(&mut self)
        ensures
            final(self)@ == zeros(old(self)@.len()),
        opens_invariants none
        no_unwind
    {
        proof {
            use_type_invariant(&*self);
        }
        wipe_bytes(&mut self.bytes);
    }
}

impl Drop for SecureBuffer {
    /// Zeroes the bytes before the memory is given back.
    fn drop(&mut self)
        opens_invariants none
        no_unwind
    {
        self.wipe();
    }
}

} // verus!
