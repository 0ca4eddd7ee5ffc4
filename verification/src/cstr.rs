//! C strings as bytes: a run of bytes without NUL, closed by one NUL byte.
//!
//! Memory that a foreign pointer leads to is held as the bytes from that
//! pointer on. The C string in it ends at its first NUL byte; what follows is
//! never read.

use vstd::prelude::*;
use vstd::slice::*;
use vstd::string::*;

verus! {

/// Whether `n` is the place of the first NUL byte of `mem`.
pub open spec fn is_first_nul(mem: Seq<u8>, n: int) -> bool {
    &&& 0 <= n < mem.len()
    &&& mem[n] == 0
    &&& forall|j: int| 0 <= j < n ==> mem[j] != 0
}

/// Whether `mem` holds a NUL byte, so that a C string can be read from its
/// start.
pub open spec fn has_nul(mem: Seq<u8>) -> bool {
    exists|i: int| 0 <= i < mem.len() && mem[i] == 0
}

/// The place of the first NUL byte of `mem`: the length of the C string that
/// starts there. Meaningful where `has_nul(mem)`.
pub open spec fn first_nul(mem: Seq<u8>) -> int {
    choose|n: int| is_first_nul(mem, n)
}

/// The C string that starts `mem`, with its closing NUL.
pub open spec fn c_string_at(mem: Seq<u8>) -> Seq<u8> {
    mem.take(first_nul(mem) + 1)
}

/// Whether `s` is exactly one C string with its closing NUL: it ends in a
/// NUL byte and holds no other.
pub open spec fn is_c_string(s: Seq<u8>) -> bool {
    s.len() > 0 && is_first_nul(s, s.len() - 1)
}

/// No byte sequence has two first NUL bytes.
pub proof fn lemma_first_nul_unique(mem: Seq<u8>, a: int, b: int)
    requires
        is_first_nul(mem, a),
        is_first_nul(mem, b),
    ensures
        a == b,
{
}

/// A NUL byte at `k` leaves a first NUL byte at or before `k`.
proof fn lemma_first_nul_before(mem: Seq<u8>, k: int)
    requires
        0 <= k < mem.len(),
        mem[k] == 0,
    ensures
        exists|n: int| 0 <= n <= k && is_first_nul(mem, n),
    decreases k,
{
    if exists|j: int| 0 <= j < k && mem[j] == 0 {
        let j = choose|j: int| 0 <= j < k && mem[j] == 0;
        lemma_first_nul_before(mem, j);
    } else {
        assert(is_first_nul(mem, k));
    }
}

/// Memory that holds a NUL byte has a first one, and `first_nul` names it.
pub proof fn lemma_first_nul(mem: Seq<u8>)
    requires
        has_nul(mem),
    ensures
        is_first_nul(mem, first_nul(mem)),
{
    let k = choose|i: int| 0 <= i < mem.len() && mem[i] == 0;
    lemma_first_nul_before(mem, k);
}

/// Where the first NUL byte of `mem` is known, so is the C string at its
/// start.
pub proof fn lemma_c_string_at(mem: Seq<u8>, n: int)
    requires
        is_first_nul(mem, n),
    ensures
        has_nul(mem),
        first_nul(mem) == n,
        c_string_at(mem) == mem.take(n + 1),
        is_c_string(c_string_at(mem)),
{
    lemma_first_nul(mem);
    lemma_first_nul_unique(mem, n, first_nul(mem));
}

/// Reading a C string from memory that holds exactly one gives it back
/// whole.
pub proof fn lemma_c_string_at_self(s: Seq<u8>)
    requires
        is_c_string(s),
    ensures
        has_nul(s),
        c_string_at(s) == s,
{
    lemma_c_string_at(s, s.len() - 1);
}

/// The place of the first NUL byte of `bytes`, if it holds one.
pub fn find_nul(bytes: &[u8]) -> (r: Option<usize>)
    ensures
        match r {
            Some(n) => is_first_nul(bytes@, n as int),
            None => !has_nul(bytes@),
        },
{
    let mut i: usize = 0;
    while i < bytes.len()
        invariant
            i <= bytes@.len(),
            forall|j: int| 0 <= j < i ==> bytes@[j] != 0,
        decreases bytes@.len() - i,
    {
        if bytes[i] == 0 {
            return Some(i);
        }
        i += 1;
    }
    None
}

/// Whether `bytes` is exactly one C string with its closing NUL.
pub fn is_c_string_bytes(bytes: &[u8]) -> (r: bool)
    ensures
        r == is_c_string(bytes@),
{
    match find_nul(bytes) {
        Some(n) => {
            proof {
                if is_c_string(bytes@) {
                    lemma_first_nul_unique(bytes@, n as int, bytes@.len() - 1);
                }
            }
            n == bytes.len() - 1
        },
        None => false,
    }
}

/// Copies the C string that starts `mem`, closing NUL included, and leaves
/// what follows it in `mem` unread.
pub fn read_c_string(mem: &[u8]) -> (r: Vec<u8>)
    requires
        has_nul(mem@),
    ensures
        r@ == c_string_at(mem@),
        is_c_string(r@),
{
    let ghost end = first_nul(mem@);
    proof {
        lemma_first_nul(mem@);
    }
    let mut out: Vec<u8> = Vec::new();
    let mut i: usize = 0;
    loop
        invariant_except_break
            is_first_nul(mem@, end),
            i <= end,
            out@ == mem@.take(i as int),
        ensures
            is_first_nul(mem@, end),
            out@ == mem@.take(end + 1),
        decreases end - i,
    {
        let byte = mem[i];
        out.push(byte);
        if byte == 0 {
            break ;
        }
        i += 1;
    }
    proof {
        lemma_c_string_at(mem@, end);
    }
    out
}

/// Why bytes were refused as the content of a C string: they hold a NUL
/// byte, the first of them at `position`.
#[derive(Debug, Copy, Clone, PartialEq, Eq, Structural)]
pub struct NulError {
    pub position: usize,
}

/// An owned C string: bytes without NUL, closed by one NUL byte.
#[derive(Debug, PartialEq, Eq)]
pub struct CStrBuf {
    bytes: Vec<u8>,
}

impl View for CStrBuf {
    type V = Seq<u8>;

    /// The bytes of the string, closing NUL included.
    closed spec fn view(&self) -> Seq<u8> {
        self.bytes@
    }
}

impl CStrBuf {
    #[verifier::type_invariant]
    spec fn well_formed(&self) -> bool {
        is_c_string(self.bytes@)
    }

    /// Makes a C string of `bytes` by closing them with a NUL byte. Bytes that
    /// hold a NUL byte themselves are refused, with the place of the first.
    pub fn new(bytes: Vec<u8>) -> (r: Result<CStrBuf, NulError>)
        ensures
            r is Ok <==> !has_nul(bytes@),
            match r {
                Ok(s) => s@ == bytes@.push(0u8) && is_c_string(s@),
                Err(e) => is_first_nul(bytes@, e.position as int),
            },
    {
        match find_nul(bytes.as_slice()) {
            Some(position) => Err(NulError { position }),
            None => {
                let mut bytes = bytes;
                bytes.push(0u8);
                Ok(CStrBuf { bytes })
            },
        }
    }

    /// Makes a C string of the UTF-8 bytes of `s`, as `new` does of bytes.
    pub fn from_str(s: &str) -> (r: Result<CStrBuf, NulError>)
        ensures
            r is Ok <==> !has_nul(s.spec_bytes()),
            match r {
                Ok(c) => c@ == s.spec_bytes().push(0u8) && is_c_string(c@),
                Err(e) => is_first_nul(s.spec_bytes(), e.position as int),
            },
    {
        CStrBuf::new(slice_to_vec(s.as_bytes()))
    }

    /// Copies the C string that starts `mem`.
    pub fn from_memory(mem: &[u8]) -> (r: CStrBuf)
        requires
            has_nul(mem@),
        ensures
            r@ == c_string_at(mem@),
            is_c_string(r@),
    {
        CStrBuf { bytes: read_c_string(mem) }
    }

    /// The bytes of the string, closing NUL included.
    pub fn as_bytes_with_nul(&self) -> (r: &[u8])
        ensures
            r@ == self@,
            is_c_string(self@),
    {
        proof {
            use_type_invariant(self);
        }
        self.bytes.as_slice()
    }

    /// The bytes of the string in front of its closing NUL.
    pub fn as_bytes(&self) -> (r: &[u8])
        ensures
            r@ == self@.drop_last(),
            !has_nul(r@),
    {
        proof {
            use_type_invariant(self);
        }
        slice_subrange(self.bytes.as_slice(), 0, self.bytes.len() - 1)
    }

    /// Gives up the string for its bytes, closing NUL included.
    pub fn into_bytes_with_nul(self) -> (r: Vec<u8>)
        ensures
            r@ == self@,
            is_c_string(r@),
    {
        proof {
            use_type_invariant(&self);
        }
        self.bytes
    }
}

impl Clone for CStrBuf {
    fn clone(&self) -> (r: Self)
        ensures
            r@ == self@,
    {
        proof {
            use_type_invariant(self);
        }
        CStrBuf { bytes: slice_to_vec(self.bytes.as_slice()) }
    }
}

/// A C string that may be absent, as its bytes.
pub open spec fn optional_view(s: Option<CStrBuf>) -> Option<Seq<u8>> {
    match s {
        Some(s) => Some(s@),
        None => None,
    }
}

} // verus!
