//! A miniature native checksum boundary.
//!
//! The library models the classic ownership-transfer pattern of a C-style
//! interface: a compute entry point that hands the caller a newly allocated,
//! NUL-terminated buffer, and a release entry point that takes it back. The
//! null handle is modelled by `Option`, the buffer by an opaque move-only
//! type, so that release of a foreign buffer and double release are ruled out
//! by the type system instead of caller discipline.

use vstd::prelude::*;

verus! {

/// Size in bytes of every buffer the boundary hands out: room for the fixed
/// checksum token, its NUL terminator, and zero padding.
pub const CHECKSUM_CAPACITY: usize = 12;

/// The fixed placeholder checksum token, the bytes of `"abcdef"`. Computing a
/// genuine digest of the file at the given path is deliberately out of scope;
/// the boundary exists for its calling convention, not for hashing.
pub open spec fn checksum_token() -> Seq<u8> {
    seq![97u8, 98u8, 99u8, 100u8, 101u8, 102u8]
}

/// The contents of every buffer the compute entry point returns: the token,
/// then zero bytes out to the fixed capacity, the first of which terminates
/// the string.
pub open spec fn checksum_content() -> Seq<u8> {
    Seq::new(
        CHECKSUM_CAPACITY as nat,
        |i: int|
            if i < checksum_token().len() {
                checksum_token()[i]
            } else {
                0u8
            },
    )
}

/// True when `s` holds a NUL byte, so that a caller reading it as a C string
/// stops inside the buffer.
pub open spec fn nul_terminated(s: Seq<u8>) -> bool {
    exists|i: int| 0 <= i < s.len() && s[i] == 0
}

/// True when the first NUL of `s` stands at index `n`: the string content is
/// exactly the `n` bytes before it.
pub open spec fn content_ends_at(s: Seq<u8>, n: int) -> bool {
    &&& 0 <= n < s.len()
    &&& s[n] == 0
    &&& forall|j: int| 0 <= j < n ==> s[j] != 0
}

/// True when zeroes in `s` only ever follow zeroes: once the terminator is
/// reached, everything after it is padding left over from zero
/// initialization.
pub open spec fn zero_padded(s: Seq<u8>) -> bool {
    forall|i: int, j: int| 0 <= i <= j < s.len() && s[i] == 0 ==> s[j] == 0
}

/// A checksum buffer whose ownership the compute entry point has transferred
/// to the caller. The field is private and no public constructor exists, so a
/// value of this type can only come out of [`get_checksum`]; and
/// [`release_checksum`] consumes it by move, so releasing a foreign buffer or
/// releasing the same buffer twice is a compile-time error here, not
/// undefined behaviour.
pub struct ChecksumBuffer {
    bytes: Vec<u8>,
}

impl View for ChecksumBuffer {
    type V = Seq<u8>;

    closed spec fn view(&self) -> Seq<u8> {
        self.bytes@
    }
}

impl ChecksumBuffer {
    /// Every buffer the boundary hands out is well formed: full fixed
    /// capacity, a NUL terminator inside it, and nothing but zero padding
    /// from the terminator on.
    pub open spec fn wf(&self) -> bool {
        &&& self@.len() == CHECKSUM_CAPACITY
        &&& nul_terminated(self@)
        &&& zero_padded(self@)
    }

    /// Size of the allocation in bytes, terminator and padding included.
    pub fn capacity(&self) -> (n: usize)
        ensures
            n == self@.len(),
    {
        self.bytes.len()
    }

    /// Read one byte of the buffer.
    pub fn byte_at(&self, i: usize) -> (b: u8)
        requires
            i < self@.len(),
        ensures
            b == self@[i as int],
    {
        self.bytes[i]
    }

    /// Borrow the raw bytes, terminator and padding included.
    pub fn as_bytes(&self) -> (r: &Vec<u8>)
        ensures
            r@ == self@,
    {
        &self.bytes
    }

    /// Length of the checksum string held in the buffer: the number of bytes
    /// before the first NUL. For a well-formed buffer this is always strictly
    /// less than the capacity.
    pub fn content_len(&self) -> (n: usize)
        requires
            self.wf(),
        ensures
            content_ends_at(self@, n as int),
            n < self@.len(),
    {
        let mut i: usize = 0;
        while i < self.bytes.len()
            invariant
                self.wf(),
                i <= self@.len(),
                forall|j: int| 0 <= j < i ==> self@[j] != 0,
            decreases self@.len() - i,
        {
            if self.bytes[i] == 0 {
                return i;
            }
            i = i + 1;
        }
        proof {
            let w = choose|w: int| 0 <= w < self@.len() && self@[w] == 0;
            assert(self@[w] != 0);
        }
        0
    }
}

/// Builds the contents of a fresh checksum buffer the way the boundary
/// promises them: the whole capacity is zero initialized first, so that the
/// buffer is deterministically terminated, and the token is then written over
/// the front, leaving the zero fill as terminator and padding.
fn fill_checksum_bytes() -> (v: Vec<u8>)
    ensures
        v@ == checksum_content(),
{
    let mut v: Vec<u8> = Vec::new();
    while v.len() < CHECKSUM_CAPACITY
        invariant
            v@.len() <= CHECKSUM_CAPACITY,
            forall|j: int| 0 <= j < v@.len() ==> v@[j] == 0,
        decreases CHECKSUM_CAPACITY - v@.len(),
    {
        v.push(0);
    }
    v.set(0, 97);
    v.set(1, 98);
    v.set(2, 99);
    v.set(3, 100);
    v.set(4, 101);
    v.set(5, 102);
    proof {
        assert(v@ =~= checksum_content());
    }
    v
}

/// How many live heap allocations a compute result carries: one for each
/// buffer handed out, none for the null result.
pub open spec fn allocations_of(r: Option<ChecksumBuffer>) -> nat {
    match r {
        None => 0,
        Some(_) => 1,
    }
}

/// Computes (here: fabricates) the checksum of the file at `filepath` and
/// transfers ownership of the resulting buffer to the caller, who must
/// eventually hand it to [`release_checksum`] exactly once.
///
/// The null handle, `None`, signals "no input" rather than failure: the
/// result is then the null handle too and no allocation happens. For every
/// non-null input the result is a non-null, well-formed buffer holding
/// exactly the fixed token, its terminator, and zero padding. The path is
/// neither read nor retained: the boundary demonstrates the calling
/// convention, not a digest.
pub fn get_checksum(filepath: Option<&Vec<u8>>) -> (r: Option<ChecksumBuffer>)
    ensures
        r is Some <==> filepath is Some,
        allocations_of(r) == if filepath is Some { 1nat } else { 0nat },
        match r {
            None => filepath is None,
            Some(b) => b@ == checksum_content() && b.wf(),
        },
{
    match filepath {
        None => None,
        Some(_) => {
            let buffer = ChecksumBuffer { bytes: fill_checksum_bytes() };
            proof {
                lemma_checksum_content_shape();
            }
            Some(buffer)
        },
    }
}

/// Releases a buffer previously returned by [`get_checksum`]. Releasing the
/// null handle, `None`, is a no-op and may be repeated any number of times.
/// The buffer is taken by move and dropped, which returns its allocation;
/// a second release of the same buffer does not compile.
pub fn release_checksum(checksum: Option<ChecksumBuffer>) {
    match checksum {
        None => (),
        Some(_buffer) => (),
    }
}

/// Among the NUL bytes of `s` there is a first one: below any NUL at `i`
/// either everything is non-zero, or a NUL stands even earlier.
proof fn lemma_least_nul(s: Seq<u8>, i: int)
    requires
        0 <= i < s.len(),
        s[i] == 0,
    ensures
        exists|n: int| content_ends_at(s, n),
    decreases i,
{
    if forall|j: int| 0 <= j < i ==> s[j] != 0 {
        assert(content_ends_at(s, i));
    } else {
        let j = choose|j: int| 0 <= j < i && s[j] == 0;
        lemma_least_nul(s, j);
    }
}

/// Every well-formed checksum buffer is NUL-terminated, and the checksum
/// string it holds is strictly shorter than the allocated capacity: a caller
/// reading it as a C string never leaves the allocation.
pub proof fn lemma_wf_content_within_capacity(b: &ChecksumBuffer)
    requires
        b.wf(),
    ensures
        nul_terminated(b@),
        exists|n: int| content_ends_at(b@, n) && n < CHECKSUM_CAPACITY,
{
    let i = choose|i: int| 0 <= i < b@.len() && b@[i] == 0;
    lemma_least_nul(b@, i);
    let n = choose|n: int| content_ends_at(b@, n);
    assert(content_ends_at(b@, n) && n < CHECKSUM_CAPACITY);
}

/// The shape of the fixed buffer contents: full capacity, the string ends at
/// the token's length, and everything from there on is zero padding.
pub proof fn lemma_checksum_content_shape()
    ensures
        checksum_content().len() == CHECKSUM_CAPACITY,
        content_ends_at(checksum_content(), checksum_token().len() as int),
        zero_padded(checksum_content()),
        nul_terminated(checksum_content()),
{
    let s = checksum_content();
    assert forall|j: int| 0 <= j < checksum_token().len() implies s[j] != 0 by {
        assert(s[j] == checksum_token()[j]);
    }
    assert(s[checksum_token().len() as int] == 0);
}

} // verus!
