//! The path codec: a UTF-8 resource path serialized with a length prefix.

use vstd::prelude::*;
use vstd::string::StrSliceExecFns;
use vstd::utf8::encode_utf8;

use crate::ToBytes;
use crate::endian::{spec_u64_to_be_bytes, u64_to_be_bytes};

verus! {

/// String representing what resource path the request is for.
pub struct BussPath {
    /// The path text.
    path: String,
}

/// The wire bytes of a path: the UTF-8 byte length as a fixed-width 64-bit
/// big-endian prefix (the same on every platform), then the raw UTF-8 bytes,
/// with no terminator.
pub open spec fn spec_path_bytes(path: Seq<char>) -> Seq<u8> {
    spec_u64_to_be_bytes(encode_utf8(path).len() as u64) + encode_utf8(path)
}

impl View for BussPath {
    type V = Seq<char>;

    closed spec fn view(&self) -> Seq<char> {
        self.path@
    }
}

impl BussPath {
    /// A path holding the given text.
    pub fn new(path: &str) -> (p: BussPath)
        ensures
            p@ == path@,
    {
        BussPath { path: path.to_owned() }
    }
}

impl ToBytes for BussPath {
    /// A path held in memory always fits the 64-bit length prefix.
    open spec fn wire_valid(&self) -> bool {
        true
    }

    open spec fn wire_bytes(&self) -> Seq<u8> {
        spec_path_bytes(self@)
    }

    fn to_bytes(self) -> (bytes: Vec<u8>) {
        let mut utf8: Vec<u8> = self.path.as_str().as_bytes_vec();
        let n: u64 = utf8.len() as u64;
        let mut bytes = u64_to_be_bytes(n);
        bytes.append(&mut utf8);
        proof {
            assert(bytes@ =~= spec_path_bytes(self@));
        }
        bytes
    }
}

} // verus!
