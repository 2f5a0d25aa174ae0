//! URI facts the pipeline relies on: the distinguished addressing
//! constants of the federation protocol, and host extraction as the `url`
//! crate defines it.

use vstd::prelude::*;

verus! {

/// The distinguished public recipient; an activity addressed to it has
/// broadcast visibility.
pub open spec fn public_uri() -> Seq<char> {
    "https://www.w3.org/ns/activitystreams#Public"@
}

/// The protocol-context marker put on outbound activities.
pub open spec fn context_uri() -> Seq<char> {
    "https://www.w3.org/ns/activitystreams"@
}

/// Relies on activitystreams::public (activitystreams_kinds::public_iri):
/// it returns the fixed public-addressing IRI
/// `https://www.w3.org/ns/activitystreams#Public`.
#[verifier::external_body]
pub(crate) fn public_marker() -> (r: String)
    ensures
        r@ == public_uri(),
{
    activitystreams::public().to_string()
}

/// Relies on activitystreams::context (activitystreams_kinds::context_iri):
/// it returns the fixed protocol-context IRI
/// `https://www.w3.org/ns/activitystreams`.
#[verifier::external_body]
pub(crate) fn context_marker() -> (r: String)
    ensures
        r@ == context_uri(),
{
    activitystreams::context().to_string()
}

/// The host component of a URI text under the `url` crate's parsing: a
/// function of the text alone, absent when the text is not an absolute
/// URL with a host.
pub uninterp spec fn host_of_spec(s: Seq<char>) -> Option<Seq<char>>;

/// Relies on url::Url::parse and url::Url::host_str: parsing is pure, and
/// `host_str` yields the authority's host when the URL has one.
#[verifier::external_body]
pub(crate) fn host_of(s: &String) -> (r: Option<String>)
    ensures
        match r {
            Option::Some(h) => host_of_spec(s@) == Option::Some(h@),
            Option::None => host_of_spec(s@) is None,
        },
{
    match url::Url::parse(s.as_str()) {
        Ok(u) => u.host_str().map(|h| h.to_owned()),
        Err(_) => None,
    }
}

} // verus!
