//! The address of the collection endpoint.
//!
//! Addresses are parsed and resolved by the `url` crate. The library holds
//! an address as text in the form in which `url` writes a parsed address out.

use vstd::prelude::*;

verus! {

/// Makes `url::ParseError` known as a type. An error of that type is carried
/// as it comes: nothing is claimed of what it holds.
#[verifier::external_type_specification]
#[verifier::external_body]
pub struct ExUrlParseError(url::ParseError);

/// What `url::Url::parse` makes of `text`: the parsed address, written out
/// again, or `None` where `text` is no absolute address.
pub uninterp spec fn url_normal_form(text: Seq<char>) -> Option<Seq<char>>;

/// What `url::Url::join` makes of `reference` against the address that
/// `url::Url::parse` reads from `base`: the resolved address, written out, or
/// `None` where either step fails.
pub uninterp spec fn url_joined(base: Seq<char>, reference: Seq<char>) -> Option<Seq<char>>;

/// Calls `url::Url::parse` on `text` and writes the parsed address out as a
/// string.
///
/// The contract only gives the outcome its name: the same text always parses
/// the same way.
#[verifier::external_body]
pub(crate) fn url_parse(text: &str) -> (r: Result<String, url::ParseError>)
    ensures
        match r {
            Ok(address) => url_normal_form(text@) == Some(address@),
            Err(_) => url_normal_form(text@) is None,
        },
{
    match url::Url::parse(text) {
        Ok(address) => Ok(String::from(address)),
        Err(e) => Err(e),
    }
}

/// Reads `base` with `url::Url::parse`, resolves `reference` against it with
/// `url::Url::join`, and writes the result out as a string.
///
/// The contract only gives the outcome its name.
#[verifier::external_body]
pub(crate) fn url_join(base: &str, reference: &str) -> (r: Result<String, url::ParseError>)
    ensures
        match r {
            Ok(address) => url_joined(base@, reference@) == Some(address@),
            Err(_) => url_joined(base@, reference@) is None,
        },
{
    match url::Url::parse(base) {
        Ok(address) => match address.join(reference) {
            Ok(joined) => Ok(String::from(joined)),
            Err(e) => Err(e),
        },
        Err(e) => Err(e),
    }
}

/// The path under the endpoint to which bundles are posted.
pub open spec fn bundle_path() -> Seq<char> {
    "/bundle"@
}

/// The path under the endpoint to which heartbeats are posted.
pub open spec fn heartbeat_path() -> Seq<char> {
    "/heartbeat"@
}

} // verus!
