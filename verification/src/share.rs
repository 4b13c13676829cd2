//! Decryption shares of the tally committee.

use vstd::prelude::*;

verus! {

/// One committee member's share towards the decryption of one proposal's
/// tally, held in its encoded form. The bytes are carried, never read.
#[derive(Clone, Debug, PartialEq, Eq)]
pub struct TallyDecryptShare {
    pub bytes: Vec<u8>,
}

impl View for TallyDecryptShare {
    type V = Seq<u8>;

    open spec fn view(&self) -> Seq<u8> {
        self.bytes@
    }
}

impl DeepView for TallyDecryptShare {
    type V = Seq<u8>;

    open spec fn deep_view(&self) -> Seq<u8> {
        self.bytes@
    }
}

impl TallyDecryptShare {
    /// The share with the given encoding.
    pub fn from_bytes(bytes: Vec<u8>) -> (share: TallyDecryptShare)
        ensures
            share@ == bytes@,
    {
        TallyDecryptShare { bytes }
    }

    /// A copy of the share's encoding.
    pub fn to_bytes(&self) -> (bytes: Vec<u8>)
        ensures
            bytes@ == self@,
    {
        let bytes = self.bytes.clone();
        assert(bytes@ =~= self.bytes@);
        bytes
    }
}

} // verus!
