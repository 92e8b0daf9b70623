//! The `Host` request header that public URLs are built on.
use vstd::prelude::*;

verus! {

/// The value of a request's `Host` header.
pub struct HostHeader<'a>(pub &'a str);

/// The upload route serves a request only when it names its host; without the
/// header the request is passed on to other routes.
pub fn host_header<'a>(value: Option<&'a str>) -> (r: Option<HostHeader<'a>>)
    ensures
        r is Some <==> value is Some,
        r is Some ==> r.unwrap().0 == value.unwrap(),
{
    match value {
        Some(h) => Some(HostHeader(h)),
        None => None,
    }
}

} // verus!
