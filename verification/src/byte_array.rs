use vstd::prelude::*;

use crate::proof_types::{hex_encode, spec_hex_lower};

verus! {

/// Exactly 32 bytes.
#[derive(Clone, Copy, Debug)]
pub struct ByteArray32(pub [u8; 32]);

/// Proof bytes handed to and from the wallet extension.
#[derive(Clone, Debug)]
pub struct ZkProof(pub Vec<u8>);

/// The bytes that hexadecimal text stands for, or `None` when the text is
/// not an even number of hexadecimal digits.
pub uninterp spec fn spec_hex_decode(text: Seq<char>) -> Option<Seq<u8>>;

/// Calls `hex::decode`.
/// Claimed: the result is named `spec_hex_decode` of the text; bytes that
/// come back, written in lowercase hexadecimal, are the text in lowercase,
/// so there are half as many of them as there are characters.
#[verifier::external_body]
fn hex_decode(text: &str) -> (r: Option<Vec<u8>>)
    ensures
        spec_hex_decode(text@) == match r {
            Some(v) => Some(v@),
            None => None::<Seq<u8>>,
        },
        r matches Some(v) ==> 2 * v@.len() == text@.len(),
{
    hex::decode(text).ok()
}

impl ByteArray32 {
    /// The 32 bytes of `array`; refused unless it holds exactly 32.
    pub fn new(array: &[u8]) -> (r: Result<ByteArray32, String>)
        ensures
            array@.len() == 32 ==> (r matches Ok(b) && b.0@ == array@),
            array@.len() != 32 ==> r is Err,
    {
        if array.len() != 32 {
            return Err("Array must be 32 bytes long".to_owned());
        }
        let mut result = crate::boc::zero_bytes32();
        let mut j: usize = 0;
        while j < 32
            invariant
                j <= 32,
                array@.len() == 32,
                result@.len() == 32,
                forall|k: int| 0 <= k < j ==> result@[k] == array@[k],
            decreases 32 - j,
        {
            result[j] = array[j];
            j = j + 1;
        }
        assert(result@ =~= array@);
        Ok(ByteArray32(result))
    }

    /// The bytes as a list.
    pub fn to_array(&self) -> (r: Vec<u8>)
        ensures
            r@ == self.0@,
    {
        let mut v: Vec<u8> = Vec::new();
        crate::hashing::append_bytes(&mut v, self.0.as_slice());
        v
    }

    /// The bytes in lowercase hexadecimal.
    pub fn to_string(&self) -> (r: String)
        ensures
            r@ == spec_hex_lower(self.0@),
    {
        hex_encode(self.0.as_slice())
    }

    /// The 32 bytes written in hexadecimal; refused for text that is not
    /// hexadecimal or not 64 digits long.
    pub fn from_string(val: &str) -> (r: Result<ByteArray32, String>)
        ensures
            (spec_hex_decode(val@) is Some && spec_hex_decode(val@)->0.len() == 32) ==> (r matches Ok(a) && a.0@
                == spec_hex_decode(val@)->0),
            !(spec_hex_decode(val@) is Some && spec_hex_decode(val@)->0.len() == 32) ==> r is Err,
    {
        let bytes = match hex_decode(val) {
            Some(b) => b,
            None => {
                return Err("Invalid hex string".to_owned());
            },
        };
        Self::new(bytes.as_slice())
    }
}

} // verus!
