//! Checks on the path templates of endpoints.
use vstd::prelude::*;
use vstd::string::*;

verus! {

/// Whether `b` is a printable ASCII byte other than space.
pub open spec fn is_path_byte(b: u8) -> bool {
    0x21 <= b && b <= 0x7E
}

/// An endpoint path is valid when every byte of it is printable ASCII other
/// than space.
pub fn is_valid_endpoint_path(string: &str) -> (r: bool)
    ensures
        r == (forall|i: int| 0 <= i < string.spec_bytes().len() ==> is_path_byte(
            #[trigger] string.spec_bytes()[i],
        )),
{
    let bytes = string.as_bytes();
    let mut i: usize = 0;
    while i < bytes.len()
        invariant
            bytes@ == string.spec_bytes(),
            i <= bytes@.len(),
            forall|j: int| 0 <= j < i ==> is_path_byte(#[trigger] bytes@[j]),
        decreases bytes@.len() - i,
    {
        let b = bytes[i];
        if !(0x21 <= b && b <= 0x7E) {
            return false;
        }
        i = i + 1;
    }
    true
}

} // verus!
