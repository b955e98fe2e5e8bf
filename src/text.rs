use vstd::prelude::*;
use vstd::string::*;
use vstd::utf8::*;

use crate::query::{
    fill_result, get_arr_init, query_calls, seq_outcome, settling_step, CapacityCall, Exchange, Step,
};
use crate::status::{is_success, Error};

verus! {

/// Size of the application-name field, terminating NUL included.
pub const MAX_APPLICATION_NAME_SIZE: usize = 128;
/// Size of the engine-name field, terminating NUL included.
pub const MAX_ENGINE_NAME_SIZE: usize = 128;

/// The bytes hold no NUL.
pub open spec fn nul_free(b: Seq<u8>) -> bool {
    forall|i: int| 0 <= i < b.len() ==> b[i] != 0
}

/// Where the text of a NUL-terminated buffer ends: at its first NUL, or at its
/// end when it holds none.
pub open spec fn first_nul(b: Seq<u8>) -> nat
    decreases b.len(),
{
    if b.len() == 0 {
        0
    } else if b[0] == 0 {
        0
    } else {
        1 + first_nul(b.drop_first())
    }
}

/// The text of a NUL-terminated buffer, never reaching past its capacity.
pub open spec fn c_text(b: Seq<u8>) -> Seq<u8> {
    b.take(first_nul(b) as int)
}

/// A fixed-capacity field of `size` bytes holding `name`, padded with NULs.
pub open spec fn fixed_field(name: Seq<u8>, size: nat) -> Seq<u8> {
    name + Seq::new((size - name.len()) as nat, |i: int| 0u8)
}

proof fn lemma_first_nul(b: Seq<u8>, n: int)
    requires
        0 <= n <= b.len(),
        forall|i: int| 0 <= i < n ==> b[i] != 0,
        n < b.len() ==> b[n] == 0,
    ensures
        first_nul(b) == n,
    decreases n,
{
    if n > 0 {
        assert(b[0] != 0);
        lemma_first_nul(b.drop_first(), n - 1);
    }
}

/// Relies on `String::from_utf8`: it succeeds exactly on valid UTF-8 and then
/// holds the characters those bytes encode.
#[verifier::external_body]
fn string_from_utf8(b: Vec<u8>) -> (r: Option<String>)
    ensures
        r is Some <==> valid_utf8(b@),
        r matches Some(s) ==> s@ == decode_utf8(b@),
{
    String::from_utf8(b).ok()
}

proof fn lemma_first_nul_is_len(b: Seq<u8>)
    requires
        first_nul(b) == b.len(),
    ensures
        nul_free(b),
    decreases b.len(),
{
    if b.len() > 0 {
        if b[0] == 0 {
        } else {
            lemma_first_nul_is_len(b.drop_first());
            assert forall|i: int| 0 <= i < b.len() implies b[i] != 0 by {
                if i > 0 {
                    assert(b[i] == b.drop_first()[i - 1]);
                }
            }
        }
    }
}

/// Position of the first NUL in `b`, or its length when it holds none.
pub fn text_len(b: &Vec<u8>) -> (n: usize)
    ensures
        n == first_nul(b@),
        n <= b.len(),
        n < b.len() ==> b@[n as int] == 0,
{
    let mut n: usize = 0;
    while n < b.len() && b[n] != 0
        invariant
            n <= b.len(),
            forall|i: int| 0 <= i < n ==> b@[i] != 0,
        decreases b.len() - n,
    {
        n = n + 1;
    }
    proof {
        lemma_first_nul(b@, n as int);
    }
    n
}

/// Reads the text of a NUL-terminated fixed-capacity buffer: it stops at the
/// first NUL (or at the end of the buffer) and fails locally when the bytes
/// are not valid UTF-8.
pub fn text_from_buffer(b: Vec<u8>) -> (r: Result<String, Error>)
    ensures
        r is Ok <==> valid_utf8(c_text(b@)),
        r matches Ok(s) ==> s@ == decode_utf8(c_text(b@)),
        r matches Err(e) ==> e == Error::MalformedText,
{
    let ghost bytes = b@;
    let n = text_len(&b);
    let mut t = b;
    t.truncate(n);
    assert(t@ =~= c_text(bytes));
    match string_from_utf8(t) {
        Some(s) => Ok(s),
        None => Err(Error::MalformedText),
    }
}

/// Encodes `name` into a field of `size` bytes: its UTF-8 bytes, then NULs up
/// to the end. A name whose bytes leave no room for the terminating NUL is
/// rejected, never truncated, before any native call is made.
pub fn encode_fixed(name: &str, size: usize) -> (r: Result<Vec<u8>, Error>)
    ensures
        r is Ok <==> name.spec_bytes().len() < size && nul_free(name.spec_bytes()),
        r matches Ok(v) ==> v@ == fixed_field(name.spec_bytes(), size as nat),
        r matches Err(e) ==> e == Error::NameTooLong,
{
    let mut v = name.as_bytes_vec();
    if v.len() >= size {
        return Err(Error::NameTooLong);
    }
    if text_len(&v) < v.len() {
        // a NUL inside the name would cut it short when read back
        return Err(Error::NameTooLong);
    }
    proof {
        lemma_first_nul_is_len(v@);
    }
    let ghost bytes = v@;
    while v.len() < size
        invariant
            bytes.len() <= v.len() <= size,
            v@ == fixed_field(bytes, v.len() as nat),
        decreases size - v.len(),
    {
        v.push(0u8);
        assert(v@ =~= fixed_field(bytes, v.len() as nat));
    }
    Ok(v)
}

/// A name without NUL that fits its field reads back unchanged: the text of
/// the encoded field is valid UTF-8 and decodes to the same characters.
pub proof fn law_name_round_trip(name: Seq<char>, size: nat)
    requires
        encode_utf8(name).len() < size,
        nul_free(encode_utf8(name)),
    ensures
        valid_utf8(c_text(fixed_field(encode_utf8(name), size))),
        decode_utf8(c_text(fixed_field(encode_utf8(name), size))) == name,
{
    broadcast use encode_utf8_valid_utf8, encode_utf8_decode_utf8;

    let bytes = encode_utf8(name);
    let field = fixed_field(bytes, size);
    assert(forall|i: int| 0 <= i < bytes.len() ==> field[i] == bytes[i]);
    assert(field[bytes.len() as int] == 0);
    lemma_first_nul(field, bytes.len() as int);
    assert(c_text(field) =~= bytes);
}

/// What reading the buffer `b` as NUL-terminated UTF-8 gives: its text up
/// to the first NUL, or `MalformedText`.
pub open spec fn text_outcome(b: Seq<u8>, r: Result<String, Error>) -> bool {
    if valid_utf8(c_text(b)) {
        r matches Ok(s) && s@ == decode_utf8(c_text(b))
    } else {
        r == Err::<String, Error>(Error::MalformedText)
    }
}

/// A text query made the exchanges `ex` and returned `r`: the calls were
/// made as the protocol asks, and `r` is the text of the settling fill's
/// bytes, or the failure.
pub open spec fn str_outcome(ex: Seq<Exchange<u8>>, r: Result<String, Error>) -> bool {
    &&& query_calls(0u8, ex)
    &&& match settling_step(ex) {
        Step::Done { count } => match fill_result(ex.last().1, count) {
            Ok(b) => text_outcome(b, r),
            Err(e) => r == Err::<String, Error>(e),
        },
        Step::Fail { code } => r == Err::<String, Error>(Error::Runtime(code)),
        Step::Call { .. } => false,
    }
}

/// Runs the two-call protocol for text: fills a byte buffer through
/// `get_arr_init`, then reads it as NUL-terminated UTF-8.
pub fn get_str<C: CapacityCall<u8>>(f: &mut C) -> (r: Result<String, Error>)
    ensures
        final(f).exchanges().len() > old(f).exchanges().len(),
        str_outcome(final(f).exchanges().skip(old(f).exchanges().len() as int), r),
{
    match get_arr_init(0u8, f) {
        Err(e) => Err(e),
        Ok(buf) => text_from_buffer(buf),
    }
}

} // verus!
