use vstd::prelude::*;

verus! {

/// The version tag that well-formed metadata carries.
pub const FT_METADATA_SPEC: &'static str = "ft-1.0.0";

/// Descriptive record of the token.
pub struct FungibleTokenMetadata {
    pub spec: String,
    pub name: String,
    pub symbol: String,
    pub icon: Option<String>,
    pub reference: Option<String>,
    pub reference_hash: Option<Vec<u8>>,
    pub decimals: u8,
}

impl FungibleTokenMetadata {
    /// Well formed: the version tag is `FT_METADATA_SPEC`, a reference comes
    /// with its hash and the other way round, and a hash has 32 bytes.
    pub open spec fn valid(&self) -> bool {
        &&& self.spec@ == FT_METADATA_SPEC@
        &&& (self.reference is Some) == (self.reference_hash is Some)
        &&& (self.reference_hash matches Some(h) ==> h@.len() == 32)
    }

    pub fn is_valid(&self) -> (r: bool)
        ensures
            r == self.valid(),
    {
        let tag = FT_METADATA_SPEC.to_owned();
        if self.spec != tag {
            return false;
        }
        if self.reference.is_some() != self.reference_hash.is_some() {
            return false;
        }
        match &self.reference_hash {
            Some(h) => h.len() == 32,
            None => true,
        }
    }
}

} // verus!
