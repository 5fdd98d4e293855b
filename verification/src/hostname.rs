//! The host name in telemetry attributes.
use vstd::prelude::*;
use vstd::utf8::{decode_utf8, valid_utf8};

verus! {

/// What `String::from_utf8_lossy` makes of bytes.
pub uninterp spec fn lossy_text(bytes: Seq<u8>) -> Seq<char>;

/// `String::from_utf8_lossy`: the text depends on the bytes alone, and valid
/// UTF-8 is decoded as it stands.
#[verifier::external_body]
fn from_utf8_lossy(bytes: &Vec<u8>) -> (r: String)
    ensures
        r@ == lossy_text(bytes@),
        valid_utf8(bytes@) ==> r@ == decode_utf8(bytes@),
{
    String::from_utf8_lossy(bytes).into_owned()
}

/// `n` is how many bytes come before the terminator, or all bytes where there
/// is none.
pub open spec fn is_name_len(buf: Seq<u8>, n: int) -> bool {
    &&& 0 <= n <= buf.len()
    &&& forall|i: int| 0 <= i < n ==> buf[i] != 0
    &&& n < buf.len() ==> buf[n] == 0
}

/// The bytes before the terminator of a C string in a buffer. A name that
/// fills the whole buffer has none.
pub fn terminated_bytes(buf: &[u8]) -> (r: Vec<u8>)
    ensures
        is_name_len(buf@, r@.len() as int),
        r@ == buf@.take(r@.len() as int),
{
    let mut r: Vec<u8> = Vec::new();
    let mut i: usize = 0;
    while i < buf.len() && buf[i] != 0
        invariant
            i <= buf@.len(),
            r@ == buf@.take(i as int),
            forall|j: int| 0 <= j < i ==> buf@[j] != 0,
        decreases buf@.len() - i,
    {
        r.push(buf[i]);
        i = i + 1;
        assert(r@ =~= buf@.take(i as int));
    }
    r
}

/// `name` is the host name that `gethostname` left in a buffer, or none where
/// it failed.
pub open spec fn is_hostname(status: i32, buf: Seq<u8>, name: Option<String>) -> bool {
    &&& name is Some <==> status == 0
    &&& name matches Some(name) ==> forall|n: int| #[trigger]
        is_name_len(buf, n) ==> name@ == lossy_text(buf.take(n)) && (valid_utf8(buf.take(n))
            ==> name@ == decode_utf8(buf.take(n)))
}

/// The host name that `gethostname` left in a buffer, or none where it failed.
/// Bytes that are no UTF-8 are replaced.
pub fn hostname_from_buffer(status: i32, buf: &[u8]) -> (r: Option<String>)
    ensures
        is_hostname(status, buf@, r),
{
    if status == 0 {
        let bytes = terminated_bytes(buf);
        let ghost len = bytes@.len() as int;
        assert forall|n: int| #[trigger] is_name_len(buf@, n) implies n == len by {
            if n < len {
                assert(buf@[n] == 0);
            } else if len < n {
                assert(buf@[len] == 0);
            }
        }
        Some(from_utf8_lossy(&bytes))
    } else {
        None
    }
}

/// A name that is followed by a terminator is read as it stands, whatever
/// comes behind; one that fills the buffer is read whole. There is no other
/// reading.
pub proof fn law_names_end_at_the_terminator(name: Seq<u8>, rest: Seq<u8>, n: int)
    requires
        forall|i: int| 0 <= i < name.len() ==> name[i] != 0,
    ensures
        is_name_len(name + seq![0u8] + rest, n) <==> n == name.len(),
        is_name_len(name, n) <==> n == name.len(),
        (name + seq![0u8] + rest).take(name.len() as int) == name,
{
    let buf = name + seq![0u8] + rest;
    assert(buf[name.len() as int] == 0);
    assert forall|i: int| 0 <= i < name.len() implies buf[i] != 0 by {
        assert(buf[i] == name[i]);
    }
    assert(buf.take(name.len() as int) =~= name);
    if 0 <= n < name.len() {
        assert(buf[n] != 0);
        assert(name[n] != 0);
    }
}

/// A host name in valid UTF-8 is told as it stands where `gethostname`
/// succeeded, and no name where it failed.
pub proof fn law_hostnames_are_told(
    status: i32,
    bytes: Seq<u8>,
    rest: Seq<u8>,
    name: Option<String>,
)
    requires
        is_hostname(status, bytes + seq![0u8] + rest, name),
        forall|i: int| 0 <= i < bytes.len() ==> bytes[i] != 0,
    ensures
        status != 0 ==> name is None,
        status == 0 ==> name is Some && name->0@ == lossy_text(bytes),
        status == 0 && valid_utf8(bytes) ==> name is Some && name->0@ == decode_utf8(bytes),
{
    law_names_end_at_the_terminator(bytes, rest, bytes.len() as int);
}

} // verus!
