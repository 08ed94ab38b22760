//! Types related to security policy.

use vstd::prelude::*;

verus! {

/// Indicates which referrer to send when fetching the frame's resource.
#[derive(Clone, Copy, Debug, PartialEq, Eq)]
pub enum ReferrerPolicy {
    /// The Referer header will not be sent.
    NoReferrer,
    /// The Referer header will not be sent to origins without TLS (HTTPS).
    NoReferrerWhenDowngrade,
    /// The sent referrer will be limited to the origin of the referring page:
    /// its scheme, host, and port.
    Origin,
    /// The referrer sent to other origins will be limited to the scheme, the
    /// host, and the port. Navigations on the same origin will still include
    /// the path.
    OriginWhenCrossOrigin,
    /// A referrer will be sent for same origin, but cross-origin requests will
    /// contain no referrer information.
    SameOrigin,
    /// Only send the origin of the document as the referrer when the protocol
    /// security level stays the same (HTTPS→HTTPS), but don't send it to a
    /// less secure destination (HTTPS→HTTP).
    StrictOrigin,
    /// Send a full URL when performing a same-origin request, only send the
    /// origin when the protocol security level stays the same (HTTPS→HTTPS),
    /// and send no header to a less secure destination (HTTPS→HTTP).
    StrictOriginWhenCrossOrigin,
}

/// The attribute value that names each policy.
pub open spec fn referrer_policy_name(p: ReferrerPolicy) -> Seq<char> {
    match p {
        ReferrerPolicy::NoReferrer => "no-referrer"@,
        ReferrerPolicy::NoReferrerWhenDowngrade => "no-referrer-when-downgrade"@,
        ReferrerPolicy::Origin => "origin"@,
        ReferrerPolicy::OriginWhenCrossOrigin => "origin-when-cross-origin"@,
        ReferrerPolicy::SameOrigin => "same-origin"@,
        ReferrerPolicy::StrictOrigin => "strict-origin"@,
        ReferrerPolicy::StrictOriginWhenCrossOrigin => "strict-origin-when-cross-origin"@,
    }
}

impl ReferrerPolicy {
    /// The attribute value that names this policy.
    pub fn as_str(&self) -> (s: &'static str)
        ensures
            s@ == referrer_policy_name(*self),
    {
        match self {
            ReferrerPolicy::NoReferrer => "no-referrer",
            ReferrerPolicy::NoReferrerWhenDowngrade => "no-referrer-when-downgrade",
            ReferrerPolicy::Origin => "origin",
            ReferrerPolicy::OriginWhenCrossOrigin => "origin-when-cross-origin",
            ReferrerPolicy::SameOrigin => "same-origin",
            ReferrerPolicy::StrictOrigin => "strict-origin",
            ReferrerPolicy::StrictOriginWhenCrossOrigin => "strict-origin-when-cross-origin",
        }
    }

    /// The policy's name as a `String`, as its `Display` writes it.
    pub fn to_string(&self) -> (s: String)
        ensures
            s@ == referrer_policy_name(*self),
    {
        self.as_str().to_string()
    }
}

} // verus!
