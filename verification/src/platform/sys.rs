//! System error codes.

use vstd::prelude::*;

verus! {

/// The system error that a result code carries, if it carries one: codes of the system
/// facility hold it in their low half.
pub open spec fn system_error(hresult: u32) -> Option<int> {
    if hresult as int / 0x1_0000 == 0x8007 {
        Some(hresult as int % 0x1_0000)
    } else {
        None
    }
}

/// Returns the system error that a result code carries, if it carries one.
pub fn windows_error(hresult: u32) -> (code: Option<i32>)
    ensures
        match system_error(hresult) {
            Some(error) => code matches Some(c) && c == error,
            None => code is None,
        },
{
    assert(hresult & 0xffff_0000 == 0x8007_0000 <==> hresult / 0x1_0000 == 0x8007) by (bit_vector);
    assert(hresult & 0xffff == hresult % 0x1_0000) by (bit_vector);
    if hresult & 0xffff_0000 == 0x8007_0000 {
        Some((hresult & 0xffff) as i32)
    } else {
        None
    }
}

} // verus!
