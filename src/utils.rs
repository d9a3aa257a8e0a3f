use vstd::prelude::*;

use crate::services::ServiceError;

verus! {

/// The UTF-16 code units of one character: one unit below U+10000, a
/// surrogate pair above.
pub open spec fn utf16_of_char(c: char) -> Seq<u16> {
    let v = c as int;
    if v < 0x10000 {
        seq![v as u16]
    } else {
        seq![(0xD800 + (v - 0x10000) / 0x400) as u16, (0xDC00 + (v - 0x10000) % 0x400) as u16]
    }
}

/// The UTF-16 encoding of a string.
pub open spec fn utf16_of(s: Seq<char>) -> Seq<u16>
    decreases s.len(),
{
    if s.len() == 0 {
        Seq::empty()
    } else {
        utf16_of(s.drop_last()) + utf16_of_char(s.last())
    }
}

/// Relies on `str::encode_utf16`: the string's UTF-16 code units, in order.
#[verifier::external_body]
fn encode_utf16(s: &str) -> (r: Vec<u16>)
    ensures
        r@ == utf16_of(s@),
{
    s.encode_utf16().collect()
}

/// The name of a named operating-system object as a wide string: its UTF-16
/// code units followed by a terminating zero.
pub fn str_to_wstring(name: &str) -> (r: Vec<u16>)
    ensures
        r@ == utf16_of(name@).push(0),
{
    let mut wstring = encode_utf16(name);
    wstring.push(0);
    wstring
}

/// Turns the thread's last operating-system error code into a result: zero
/// means success.
pub fn check_last_error(error: i32) -> (r: Result<(), ServiceError>)
    ensures
        error == 0 ==> r is Ok,
        error != 0 ==> r == Err::<(), ServiceError>(ServiceError::WindowsGetLastError(error)),
{
    if error != 0 {
        Err(ServiceError::WindowsGetLastError(error))
    } else {
        Ok(())
    }
}

} // verus!
