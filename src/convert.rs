//! Marshalling at the foreign calling boundary. A foreign pointer is modelled as
//! `Option`: `None` is the null pointer, `Some` the memory it points to.
use vstd::prelude::*;
use vstd::utf8::{decode_utf8, valid_utf8};

verus! {

/// Why a foreign value could not be taken or handed back.
#[derive(Clone, Copy, Debug, PartialEq, Eq, Structural)]
pub enum FfiError {
    /// A null pointer where a value was required.
    NullPointer,
    /// The text is not valid UTF-8.
    InvalidUtf8String,
}

/// The bytes a pointer and a length denote, or why there are none.
pub open spec fn buffer_of(input: Option<Seq<u8>>, len: usize) -> Result<Seq<u8>, FfiError> {
    match input {
        None => if len != 0 {
            Err(FfiError::NullPointer)
        } else {
            Ok(Seq::empty())
        },
        Some(mem) => Ok(mem.subrange(0, len as int)),
    }
}

/// A foreign pointer's memory seen through its view.
pub open spec fn view_pointer(input: &Option<Vec<u8>>) -> Option<Seq<u8>> {
    match input {
        None => None,
        Some(v) => Some(v@),
    }
}

/// Takes a byte buffer given as a pointer and a length. A null pointer is an
/// empty buffer when the length is zero and an error otherwise.
pub fn bytes_convert_from(input: &Option<Vec<u8>>, input_len: usize) -> (r: Result<Vec<u8>, FfiError>)
    requires
        input matches Some(mem) ==> input_len <= mem@.len(),
    ensures
        match r {
            Ok(b) => buffer_of(view_pointer(input), input_len) == Ok::<Seq<u8>, FfiError>(b@),
            Err(e) => buffer_of(view_pointer(input), input_len) == Err::<Seq<u8>, FfiError>(e),
        },
{
    match input {
        None => {
            if input_len != 0 {
                Err(FfiError::NullPointer)
            } else {
                Ok(Vec::new())
            }
        },
        Some(mem) => {
            let mut out: Vec<u8> = Vec::new();
            let mut i: usize = 0;
            while i < input_len
                invariant
                    i <= input_len,
                    input_len <= mem@.len(),
                    out@ == mem@.subrange(0, i as int),
                decreases input_len - i,
            {
                out.push(mem[i]);
                i = i + 1;
                assert(out@ =~= mem@.subrange(0, i as int));
            }
            Ok(out)
        },
    }
}

/// The index of the first zero byte.
pub open spec fn is_first_nul(mem: Seq<u8>, n: int) -> bool {
    &&& 0 <= n < mem.len()
    &&& mem[n] == 0
    &&& forall|j: int| 0 <= j < n ==> mem[j] != 0
}

/// Whether the memory holds a terminating zero byte.
pub open spec fn has_nul(mem: Seq<u8>) -> bool {
    exists|n: int| 0 <= n < mem.len() && mem[n] == 0
}

/// The bytes of a zero-terminated string: those before its first zero byte.
pub fn c_string_bytes(mem: &Vec<u8>) -> (r: Vec<u8>)
    requires
        has_nul(mem@),
    ensures
        is_first_nul(mem@, r@.len() as int),
        r@ == mem@.subrange(0, r@.len() as int),
{
    let mut out: Vec<u8> = Vec::new();
    let len = mem.len();
    let mut i: usize = 0;
    while mem[i] != 0
        invariant
            len == mem@.len(),
            has_nul(mem@),
            i < mem@.len(),
            forall|j: int| 0 <= j < i ==> mem@[j] != 0,
            out@ == mem@.subrange(0, i as int),
        decreases mem@.len() - i,
    {
        out.push(mem[i]);
        i = i + 1;
        assert(out@ =~= mem@.subrange(0, i as int));
        proof {
            if i == mem@.len() {
                let n = choose|n: int| 0 <= n < mem@.len() && mem@[n] == 0;
                assert(mem@[n] != 0);
            }
        }
    }
    out
}

/// Relies on std::str::from_utf8: it succeeds exactly on valid UTF-8, and the
/// text it gives is the decoding of the bytes.
#[verifier::external_body]
fn utf8_text(b: &[u8]) -> (r: Option<String>)
    ensures
        r is Some == valid_utf8(b@),
        r matches Some(s) ==> s@ == decode_utf8(b@),
{
    std::str::from_utf8(b).ok().map(|s| s.to_string())
}

/// The text of a zero-terminated string, or why there is none.
pub open spec fn text_of(input: Option<Seq<u8>>) -> Result<Seq<char>, FfiError> {
    match input {
        None => Err(FfiError::NullPointer),
        Some(mem) => {
            let n = choose|n: int| is_first_nul(mem, n);
            let b = mem.subrange(0, n);
            if valid_utf8(b) {
                Ok(decode_utf8(b))
            } else {
                Err(FfiError::InvalidUtf8String)
            }
        },
    }
}

proof fn lemma_first_nul_unique(mem: Seq<u8>, a: int, b: int)
    requires
        is_first_nul(mem, a),
        is_first_nul(mem, b),
    ensures
        a == b,
{
    if a < b {
        assert(mem[a] != 0);
    } else if b < a {
        assert(mem[b] != 0);
    }
}

/// Takes a string given as a pointer to zero-terminated UTF-8 text.
pub fn string_convert_from(foreign: &Option<Vec<u8>>) -> (r: Result<String, FfiError>)
    requires
        foreign matches Some(mem) ==> has_nul(mem@),
    ensures
        match r {
            Ok(s) => text_of(view_pointer(foreign)) == Ok::<Seq<char>, FfiError>(s@),
            Err(e) => text_of(view_pointer(foreign)) == Err::<Seq<char>, FfiError>(e),
        },
{
    match foreign {
        None => Err(FfiError::NullPointer),
        Some(mem) => {
            let b = c_string_bytes(mem);
            proof {
                let n = choose|n: int| is_first_nul(mem@, n);
                lemma_first_nul_unique(mem@, n, b@.len() as int);
            }
            match utf8_text(b.as_slice()) {
                Some(s) => Ok(s),
                None => Err(FfiError::InvalidUtf8String),
            }
        },
    }
}

/// A location to write a result to: `None` is the null pointer, `Some` holds
/// what the location holds (`None` while nothing was written).
pub struct OutPointer<T> {
    pub target: Option<Option<T>>,
}

/// Writes `value` through the pointer; a null pointer is refused and left as it is.
pub fn write_to<T>(ptr: &mut OutPointer<T>, value: T) -> (r: Result<(), FfiError>)
    ensures
        old(ptr).target is None ==> r == Err::<(), FfiError>(FfiError::NullPointer)
            && final(ptr).target is None,
        old(ptr).target is Some ==> r == Ok::<(), FfiError>(()) && final(ptr).target == Some(Some(value)),
{
    if ptr.target.is_none() {
        return Err(FfiError::NullPointer);
    }
    ptr.target = Some(Some(value));
    Ok(())
}

} // verus!
