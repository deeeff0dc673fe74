//! Backend identifiers: the first validation gate of every identifier field.

use vstd::prelude::*;
use vstd::string::*;
use vstd::utf8::{encode_utf8, is_char_boundary};

verus! {

/// The canonical text of the identifier that `raw` denotes, or `None` where
/// `raw` denotes none.
pub uninterp spec fn letta_id_parse(raw: Seq<char>) -> Option<Seq<char>>;

/// Whether the places 36 and 37 bytes before the end of `raw`'s UTF-8
/// encoding, where the backend's parser splits a longer text into prefix,
/// dash and UUID, both fall between characters.
pub open spec fn splits_between_characters(raw: Seq<char>) -> bool {
    let bytes = encode_utf8(raw);
    let n = bytes.len() as usize;
    n <= 36 || (is_char_boundary(bytes, n - 36) && is_char_boundary(bytes, n - 37))
}

/// Parses `raw` with `letta::types::LettaId`'s `FromStr` and converts the
/// identifier to its text.
///
/// Trusted: the result is the canonical text of the identifier that the
/// backend's format reads in `raw`, and `None` exactly where the parser
/// rejects `raw`.  The parser slices a text of more than 36 bytes at byte
/// offsets 36 and 37 before its end, which only text that splits between
/// characters there allows.
#[verifier::external_body]
fn parse_letta_id(raw: &str) -> (r: Option<String>)
    requires
        splits_between_characters(raw@),
    ensures
        match r {
            Some(canonical) => letta_id_parse(raw@) == Some(canonical@),
            None => letta_id_parse(raw@) is None,
        },
{
    match raw.parse::<letta::types::LettaId>() {
        Ok(id) => Some(String::from(id)),
        Err(_) => None,
    }
}

/// Whether `raw` is a well-formed identifier: text that the backend's parser
/// can split and that its identifier format accepts.
pub open spec fn well_formed_id(raw: Seq<char>) -> bool {
    splits_between_characters(raw) && letta_id_parse(raw) is Some
}

/// The canonical text of a well-formed identifier.
pub open spec fn canonical_id(raw: Seq<char>) -> Seq<char>
    recommends
        well_formed_id(raw),
{
    letta_id_parse(raw)->0
}

/// What parsing one raw identifier yields, as a model: the canonical text,
/// or the rejected text itself.
pub open spec fn parse_outcome(raw: Seq<char>) -> Result<Seq<char>, Seq<char>> {
    if well_formed_id(raw) {
        Ok(canonical_id(raw))
    } else {
        Err(raw)
    }
}

/// A parsed backend identifier, held as its canonical text.
#[derive(Debug, PartialEq, Eq)]
pub struct BackendId {
    text: String,
}

/// The outcome of parsing one identifier field: the identifier, or the text
/// that was rejected.
pub type IdOutcome = Result<BackendId, String>;

impl View for BackendId {
    type V = Seq<char>;

    closed spec fn view(&self) -> Seq<char> {
        self.text@
    }
}

/// The model of an outcome.
pub open spec fn outcome_view(outcome: IdOutcome) -> Result<Seq<char>, Seq<char>> {
    match outcome {
        Ok(id) => Ok(id@),
        Err(reason) => Err(reason@),
    }
}

impl BackendId {
    /// Parses caller-supplied text.  Text that the backend's parser cannot
    /// split between characters is rejected without consulting the parser.
    pub fn parse(raw: &str) -> (r: IdOutcome)
        ensures
            outcome_view(r) == parse_outcome(raw@),
    {
        let n = raw.len();
        if n <= 36 || (raw.is_char_boundary(n - 36) && raw.is_char_boundary(n - 37)) {
            match parse_letta_id(raw) {
                Some(text) => Ok(BackendId { text }),
                None => Err(String::from_str(raw)),
            }
        } else {
            Err(String::from_str(raw))
        }
    }

    /// The canonical text.
    pub fn as_str(&self) -> (s: &str)
        ensures
            s@ == self@,
    {
        self.text.as_str()
    }

    /// A second handle on the same identifier.
    pub fn duplicate(&self) -> (other: BackendId)
        ensures
            other@ == self@,
    {
        BackendId { text: self.text.clone() }
    }
}

} // verus!
