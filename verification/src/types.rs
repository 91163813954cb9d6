//! External identifiers as they travel over the wire: sixteen opaque bytes,
//! shown to clients as URL-safe base64 text. Holds the trusted wrappers
//! around the base64 engine and the verified parser of incoming identifiers.

use vstd::prelude::*;
use vstd::string::StringExecFns;
use base64::Engine;

verus! {

#[verifier::external_type_specification]
#[verifier::external_body]
pub struct ExDecodeError(base64::DecodeError);

/// What URL-safe, padded base64 encoding returns for the given bytes: a
/// function of the bytes alone.
pub uninterp spec fn base64url_of(bytes: Seq<u8>) -> Seq<char>;

/// What URL-safe, padded base64 decoding returns for the given text: the
/// decoded bytes, or nothing when the text is rejected; a function of the
/// text alone.
pub uninterp spec fn base64url_decode_of(text: Seq<char>) -> Option<Seq<u8>>;

/// Relies on the `encode` of base64's `URL_SAFE` engine.
#[verifier::external_body]
pub(crate) fn b64url_encode(bytes: &[u8]) -> (r: String)
    ensures
        r@ == base64url_of(bytes@),
{
    base64::engine::general_purpose::URL_SAFE.encode(bytes)
}

/// Relies on the `decode` of base64's `URL_SAFE` engine.
#[verifier::external_body]
pub(crate) fn b64url_decode(text: &str) -> (r: Result<Vec<u8>, base64::DecodeError>)
    ensures
        r matches Ok(v) ==> base64url_decode_of(text@) == Some(v@),
        r is Err <==> base64url_decode_of(text@) is None,
{
    base64::engine::general_purpose::URL_SAFE.decode(text)
}

/// Relies on the `Display` rendering of `base64::DecodeError`, handed back
/// as a plain string for the error report.
#[verifier::external_body]
fn decode_error_text(e: &base64::DecodeError) -> String {
    format!("{}", e)
}

/// The sixteen-byte external identifier of a record, as decoded from a
/// request path segment.
#[derive(Debug)]
pub struct ExtId(pub Vec<u8>);

/// Why a path segment was no valid external identifier.
#[derive(Debug)]
pub struct ExtIdError(pub String);

/// The identifier a path segment stands for: its base64 decoding must yield
/// at least sixteen bytes, of which the first sixteen are the identifier.
pub open spec fn ext_id_of(param: Seq<char>) -> Option<Seq<u8>> {
    match base64url_decode_of(param) {
        Some(b) => if b.len() >= 16 {
            Some(b.take(16))
        } else {
            None
        },
        None => None,
    }
}

impl ExtId {
    /// Parses a path segment into an external identifier, or reports why the
    /// segment was rejected. Every decode shorter than sixteen bytes gets
    /// the one chunk-size message: the sixteen-byte rule is this type's own,
    /// so it keeps no second error vocabulary for short decodes.
    pub fn from_param(param: &str) -> (r: Result<ExtId, ExtIdError>)
        ensures
            r matches Ok(id) ==> ext_id_of(param@) == Some(id.0@) && id.0@.len() == 16,
            r is Err <==> ext_id_of(param@) is None,
            r matches Err(e) ==> (base64url_decode_of(param@) is Some ==> e.0@
                == "Illegal chunk size, expected 16 bytes: "@ + param@),
    {
        match b64url_decode(param) {
            Ok(bytes) => {
                if bytes.len() >= 16 {
                    let mut id: Vec<u8> = Vec::new();
                    let mut i: usize = 0;
                    while i < 16
                        invariant
                            bytes@.len() >= 16,
                            i <= 16,
                            id@ == bytes@.take(i as int),
                        decreases 16 - i,
                    {
                        id.push(bytes[i]);
                        proof {
                            assert(id@ =~= bytes@.take(i + 1 as int));
                        }
                        i = i + 1;
                    }
                    Ok(ExtId(id))
                } else {
                    let mut s = String::from_str("Illegal chunk size, expected 16 bytes: ");
                    s.append(param);
                    Err(ExtIdError(s))
                }
            },
            Err(e) => {
                let text = decode_error_text(&e);
                let mut s = String::from_str("Error decoding url safe base64: ");
                s.append(text.as_str());
                Err(ExtIdError(s))
            },
        }
    }
}

} // verus!
