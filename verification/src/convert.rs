//! Conversions of values that cross the boundary to Rofi's C interface.
use vstd::prelude::*;
use vstd::string::StringSliceAdditionalSpecFns;

use crate::string::String;

verus! {

/// A size as a C `int`, saturating at the largest `int`.
pub fn saturating_c_int(value: u32) -> (c: i32)
    ensures
        c == vstd::math::min(value as int, i32::MAX as int),
{
    if value > i32::MAX as u32 {
        i32::MAX
    } else {
        value as i32
    }
}

/// A count as a C `unsigned int`, saturating at the largest `unsigned int`.
pub fn saturating_c_uint(value: usize) -> (c: u32)
    ensures
        c == vstd::math::min(value as int, u32::MAX as int),
{
    if value > u32::MAX as usize {
        u32::MAX
    } else {
        value as u32
    }
}

/// The bytes form a C string: they end in a nul byte and hold no other.
pub open spec fn is_c_string(bytes: Seq<u8>) -> bool {
    &&& bytes.len() > 0
    &&& bytes.last() == 0u8
    &&& forall|i: int| 0 <= i < bytes.len() - 1 ==> bytes[i] != 0u8
}

/// Whether `s` is nul-terminated and holds no other nul byte.
pub fn is_c_str(s: &str) -> (ok: bool)
    ensures
        ok == is_c_string(s.spec_bytes()),
{
    let bytes = s.as_bytes();
    if bytes.len() == 0 {
        return false;
    }
    let mut i: usize = 0;
    while i < bytes.len() - 1
        invariant
            bytes@ == s.spec_bytes(),
            bytes@.len() > 0,
            i < bytes@.len(),
            forall|j: int| 0 <= j < i ==> bytes@[j] != 0u8,
        decreases bytes@.len() - i,
    {
        if bytes[i] == 0 {
            return false;
        }
        i = i + 1;
    }
    bytes[i] == 0
}

/// Every string, followed by its nul terminator, is a C string.
pub proof fn lemma_string_is_c_string(s: String)
    requires
        s.wf(),
    ensures
        is_c_string(s@.push(0u8)),
{
    s.lemma_wf();
    assert forall|i: int| 0 <= i < s@.push(0u8).len() - 1 implies s@.push(0u8)[i] != 0u8 by {
        assert(s@.push(0u8)[i] == s@[i]);
    }
}

} // verus!
