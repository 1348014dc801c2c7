//! The decision part of request tracking.
//!
//! Delivery runs outside the library on a fire-and-forget queue; here is
//! only what gets reported for a request, which is pure.

use vstd::prelude::*;

verus! {

/// One page-view report.
pub struct TrackEvent {
    pub name: String,
    pub domain: String,
    pub url: String,
    pub referrer: Option<String>,
    pub user_agent: Option<String>,
    pub xff: Option<String>,
}

/// Build the page-view report for a request.  Requests without a host are
/// ignored and produce nothing.
pub fn page_view(
    host: Option<String>,
    uri: String,
    referrer: Option<String>,
    user_agent: Option<String>,
    xff: Option<String>,
) -> (r: Option<TrackEvent>)
    ensures
        r is Some <==> host is Some,
        r matches Some(e) ==> host matches Some(h) && e.name@ == "pageview"@ && e.domain == h
            && e.url == uri && e.referrer == referrer && e.user_agent == user_agent && e.xff
            == xff,
{
    match host {
        Some(h) => Some(
            TrackEvent {
                name: String::from_str("pageview"),
                domain: h,
                url: uri,
                referrer,
                user_agent,
                xff,
            },
        ),
        None => None,
    }
}

/// The url a report is sent with: the public base in front of the request
/// uri.
pub fn full_url(public_url: &str, uri: &str) -> (r: String)
    ensures
        r@ == public_url@ + uri@,
{
    let mut r = public_url.to_owned();
    r.append(uri);
    r
}

} // verus!
