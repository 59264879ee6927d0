//! Parsing of the textual identifiers under which blocks are stored.
use vstd::prelude::*;

verus! {

/// The binary form of the identifier that libipld's Cid parser reads from the
/// given text, if it accepts the text.
pub uninterp spec fn cid_bytes_of(text: Seq<char>) -> Option<Seq<u8>>;

#[verifier::external_type_specification]
#[verifier::external_body]
pub struct ExCidError(libipld::cid::Error);

/// Why an identifier could not be used.
#[derive(Clone, Copy, Debug, PartialEq, Eq, Structural)]
pub enum IdentifierError {
    /// The text is no valid identifier encoding.
    Malformed,
}

/// Relies on Cid's FromStr, which parses a textual identifier with or without
/// an `/ipfs/` prefix and refuses text of fewer than two bytes, and on
/// Cid::to_bytes, which gives its binary form.
#[verifier::external_body]
fn parse_cid(text: &str) -> (r: Result<Vec<u8>, libipld::cid::Error>)
    ensures
        match r {
            Ok(bytes) => cid_bytes_of(text@) == Some(bytes@),
            Err(_) => cid_bytes_of(text@) is None,
        },
        text@.len() == 0 ==> r is Err,
{
    <libipld::cid::Cid as std::str::FromStr>::from_str(text).map(|cid| cid.to_bytes())
}

/// Parses a textual identifier into its binary form. Malformed text is an
/// input error of its own, told apart from any failure of the store.
pub fn parse_identifier(text: &str) -> (r: Result<Vec<u8>, IdentifierError>)
    ensures
        match cid_bytes_of(text@) {
            Some(bytes) => r matches Ok(b) && b@ == bytes,
            None => r == Err::<Vec<u8>, IdentifierError>(IdentifierError::Malformed),
        },
        text@.len() == 0 ==> r == Err::<Vec<u8>, IdentifierError>(IdentifierError::Malformed),
{
    match parse_cid(text) {
        Ok(bytes) => Ok(bytes),
        Err(_) => Err(IdentifierError::Malformed),
    }
}

} // verus!
