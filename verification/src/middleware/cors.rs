//! The cross-origin policy: which origins get permission headers.

use vstd::prelude::*;
use crate::request::Method;
use crate::text::{chars_of, ends_with, find_char, position_of, same_chars};

verus! {

/// A request header that cross-origin callers may send.
#[derive(Clone, Copy, Debug, PartialEq, Eq, Structural)]
pub enum AllowedHeader {
    Authorization,
    Accept,
    ContentType,
}

/// The methods that cross-origin callers may use.
pub open spec fn allowed_methods() -> Seq<Method> {
    seq![Method::Get, Method::Post, Method::Put, Method::Delete]
}

/// The request headers that cross-origin callers may send.
pub open spec fn allowed_headers() -> Seq<AllowedHeader> {
    seq![AllowedHeader::Authorization, AllowedHeader::Accept, AllowedHeader::ContentType]
}

/// The host name in an origin of the form `scheme://host` or
/// `scheme://host:port`: what stands between `://` and the next `:` or `/`,
/// or the end. An origin without a scheme, without `://` after it, or with
/// nothing where the host should be has no host name.
pub open spec fn host_of(origin: Seq<char>) -> Option<Seq<char>> {
    let colon = position_of(origin, ':', 0);
    if 0 < colon && colon + 2 < origin.len() && origin[colon + 1] == '/' && origin[colon + 2]
        == '/' {
        let start = colon + 3;
        let port = position_of(origin, ':', start);
        let path = position_of(origin, '/', start);
        let stop = if port < path {
            port
        } else {
            path
        };
        if start < stop {
            Some(origin.subrange(start, stop))
        } else {
            None
        }
    } else {
        None
    }
}

/// A cross-origin policy as a mathematical value.
pub struct PolicyView {
    pub origins: Seq<Seq<char>>,
    pub suffixes: Seq<Seq<char>>,
    pub max_age: u32,
}

/// The permission headers for one response, as a mathematical value.
pub struct GrantView {
    pub allow_origin: Seq<char>,
    pub allow_methods: Seq<Method>,
    pub allow_headers: Seq<AllowedHeader>,
    pub max_age: u32,
}

impl PolicyView {
    /// Whether `origin` is one of the exact origins of the policy.
    pub open spec fn listed(self, origin: Seq<char>) -> bool {
        exists|i: int| 0 <= i < self.origins.len() && #[trigger] self.origins[i] == origin
    }

    /// Whether `host` ends with one of the suffixes of the policy.
    pub open spec fn under_suffix(self, host: Seq<char>) -> bool {
        exists|i: int|
            0 <= i < self.suffixes.len() && (#[trigger] self.suffixes[i]).is_suffix_of(host)
    }

    /// Whether the policy allows `origin`: it is listed, or its host name
    /// ends with one of the suffixes.
    pub open spec fn allows(self, origin: Seq<char>) -> bool {
        self.listed(origin) || (host_of(origin) matches Some(host) && self.under_suffix(host))
    }

    /// The permission headers for a request that declared `origin`: for an
    /// allowed origin, that origin with the fixed methods and headers and
    /// the policy's max-age; none for any other origin, and none for a
    /// request that declared no origin.
    pub open spec fn grant(self, origin: Option<Seq<char>>) -> Option<GrantView> {
        match origin {
            Some(origin) if self.allows(origin) => Some(
                GrantView {
                    allow_origin: origin,
                    allow_methods: allowed_methods(),
                    allow_headers: allowed_headers(),
                    max_age: self.max_age,
                },
            ),
            _ => None,
        }
    }
}

/// The permission headers for one response.
#[derive(Clone, Debug, PartialEq, Eq)]
pub struct CorsGrant {
    pub allow_origin: String,
    pub allow_methods: Vec<Method>,
    pub allow_headers: Vec<AllowedHeader>,
    /// How long a browser may keep a preflight answer, in seconds.
    pub max_age: u32,
}

impl View for CorsGrant {
    type V = GrantView;

    open spec fn view(&self) -> GrantView {
        GrantView {
            allow_origin: self.allow_origin@,
            allow_methods: self.allow_methods@,
            allow_headers: self.allow_headers@,
            max_age: self.max_age,
        }
    }
}

/// An optional grant as a mathematical value.
pub open spec fn grant_view(grant: Option<CorsGrant>) -> Option<GrantView> {
    match grant {
        Some(grant) => Some(grant@),
        None => None,
    }
}

/// The cross-origin policy: exact origins and host-name suffixes.
#[derive(Clone, Debug, PartialEq, Eq)]
pub struct CorsPolicy {
    origins: Vec<String>,
    suffixes: Vec<String>,
    max_age: u32,
}

impl View for CorsPolicy {
    type V = PolicyView;

    closed spec fn view(&self) -> PolicyView {
        PolicyView {
            origins: self.origins@.map_values(|text: String| text@),
            suffixes: self.suffixes@.map_values(|text: String| text@),
            max_age: self.max_age,
        }
    }
}

/// The host name of `origin`, where it has one.
pub fn host_name(origin: &Vec<char>) -> (host: Option<Vec<char>>)
    ensures
        match host {
            Some(host) => host_of(origin@) == Some(host@),
            None => host_of(origin@) is None,
        },
{
    let colon = find_char(origin, ':', 0);
    if colon == 0 || origin.len() < 3 || colon >= origin.len() - 2 {
        return None;
    }
    if origin[colon + 1] != '/' || origin[colon + 2] != '/' {
        return None;
    }
    let start: usize = colon + 3;
    let port = find_char(origin, ':', start);
    let path = find_char(origin, '/', start);
    let stop: usize = if port < path {
        port
    } else {
        path
    };
    if start >= stop {
        return None;
    }
    let mut host: Vec<char> = Vec::new();
    let mut i: usize = start;
    while i < stop
        invariant
            start <= i <= stop <= origin.len(),
            host@ == origin@.subrange(start as int, i as int),
        decreases stop - i,
    {
        host.push(origin[i]);
        assert(host@ =~= origin@.subrange(start as int, i + 1));
        i += 1;
    }
    Some(host)
}

impl CorsPolicy {
    /// A policy that allows no origin yet.
    pub fn new(max_age: u32) -> (policy: CorsPolicy)
        ensures
            policy@ == (PolicyView { origins: Seq::empty(), suffixes: Seq::empty(), max_age }),
    {
        let policy = CorsPolicy { origins: Vec::new(), suffixes: Vec::new(), max_age };
        assert(policy@.origins =~= Seq::<Seq<char>>::empty());
        assert(policy@.suffixes =~= Seq::<Seq<char>>::empty());
        policy
    }

    /// The policy with `origin` added to its exact origins.
    pub fn allowed_origin(self, origin: &str) -> (policy: CorsPolicy)
        ensures
            policy@ == (PolicyView { origins: self@.origins.push(origin@), ..self@ }),
    {
        let mut policy = self;
        policy.origins.push(origin.to_owned());
        assert(policy@.origins =~= self@.origins.push(origin@));
        policy
    }

    /// The policy with `suffix` added to its host-name suffixes.
    pub fn allowed_suffix(self, suffix: &str) -> (policy: CorsPolicy)
        ensures
            policy@ == (PolicyView { suffixes: self@.suffixes.push(suffix@), ..self@ }),
    {
        let mut policy = self;
        policy.suffixes.push(suffix.to_owned());
        assert(policy@.suffixes =~= self@.suffixes.push(suffix@));
        policy
    }

    fn is_listed(&self, origin: &Vec<char>) -> (yes: bool)
        ensures
            yes == self@.listed(origin@),
    {
        let mut i: usize = 0;
        while i < self.origins.len()
            invariant
                i <= self.origins.len(),
                forall|j: int| 0 <= j < i ==> #[trigger] self@.origins[j] != origin@,
            decreases self.origins.len() - i,
        {
            let candidate = chars_of(self.origins[i].as_str());
            if same_chars(&candidate, origin) {
                assert(self@.origins[i as int] == origin@);
                return true;
            }
            i += 1;
        }
        false
    }

    fn is_under_suffix(&self, host: &Vec<char>) -> (yes: bool)
        ensures
            yes == self@.under_suffix(host@),
    {
        let mut i: usize = 0;
        while i < self.suffixes.len()
            invariant
                i <= self.suffixes.len(),
                forall|j: int| 0 <= j < i ==> !(#[trigger] self@.suffixes[j]).is_suffix_of(host@),
            decreases self.suffixes.len() - i,
        {
            let suffix = chars_of(self.suffixes[i].as_str());
            if ends_with(host, &suffix) {
                assert(self@.suffixes[i as int].is_suffix_of(host@));
                return true;
            }
            i += 1;
        }
        false
    }

    /// Whether the policy allows `origin`.
    pub fn is_allowed(&self, origin: &str) -> (yes: bool)
        ensures
            yes == self@.allows(origin@),
    {
        let chars = chars_of(origin);
        if self.is_listed(&chars) {
            return true;
        }
        match host_name(&chars) {
            Some(host) => self.is_under_suffix(&host),
            None => false,
        }
    }

    /// Decides on the permission headers for a request from the origin it
    /// declared, if any. A disallowed origin is not turned away here: it
    /// merely gets no permission header.
    pub fn evaluate(&self, origin: Option<&str>) -> (grant: Option<CorsGrant>)
        ensures
            grant_view(grant) == self@.grant(
                match origin {
                    Some(text) => Some(text@),
                    None => None,
                },
            ),
    {
        match origin {
            Some(text) => {
                if self.is_allowed(text) {
                    let mut allow_methods: Vec<Method> = Vec::new();
                    allow_methods.push(Method::Get);
                    allow_methods.push(Method::Post);
                    allow_methods.push(Method::Put);
                    allow_methods.push(Method::Delete);
                    let mut allow_headers: Vec<AllowedHeader> = Vec::new();
                    allow_headers.push(AllowedHeader::Authorization);
                    allow_headers.push(AllowedHeader::Accept);
                    allow_headers.push(AllowedHeader::ContentType);
                    assert(allow_methods@ =~= allowed_methods());
                    assert(allow_headers@ =~= allowed_headers());
                    Some(
                        CorsGrant {
                            allow_origin: text.to_owned(),
                            allow_methods,
                            allow_headers,
                            max_age: self.max_age,
                        },
                    )
                } else {
                    None
                }
            },
            None => None,
        }
    }
}

/// Permission headers go to allowed origins only, and they name the origin
/// that asked: a request gets a grant exactly where it declared an origin
/// that the policy allows, and the grant then carries that very origin.
pub proof fn grants_go_to_allowed_origins_only(policy: PolicyView, origin: Option<Seq<char>>)
    ensures
        policy.grant(origin) is Some <==> origin is Some && policy.allows(origin->Some_0),
        policy.grant(origin) matches Some(grant) ==> Some(grant.allow_origin) == origin
            && grant.allow_methods == allowed_methods() && grant.allow_headers
            == allowed_headers() && grant.max_age == policy.max_age,
{
}

} // verus!
