use vstd::prelude::*;

use crate::chars::{opt_view, str_eq};

verus! {

/// Which connections a proxy intercepts.
#[derive(Debug, Clone, Copy, PartialEq, Eq, Structural)]
pub enum Intercept {
    /// Every connection goes through the proxy.
    All,
    /// Only plain-HTTP connections go through the proxy.
    Http,
    /// Only HTTPS connections go through the proxy.
    Https,
    /// No connection goes through the proxy.
    Never,
}

/// A destination whose connection scheme can be read.
pub trait Dst {
    /// The scheme of the destination, at the level of the model.
    spec fn scheme_spec(&self) -> Option<Seq<char>>;

    /// The scheme of the destination, e.g. "http" or "https".
    fn scheme(&self) -> (r: Option<&str>)
        ensures
            match (r, self.scheme_spec()) {
                (Some(s), Some(v)) => s@ == v,
                (None, None) => true,
                _ => false,
            },
    ;
}

/// A plain destination: just a scheme. The caller that talks to the real
/// transport reduces its richer URI type to this.
#[derive(Debug, Clone, PartialEq, Eq)]
pub struct Endpoint {
    pub scheme: Option<String>,
}

impl Dst for Endpoint {
    open spec fn scheme_spec(&self) -> Option<Seq<char>> {
        opt_view(self.scheme)
    }

    fn scheme(&self) -> (r: Option<&str>) {
        match &self.scheme {
            Some(s) => Some(s.as_str()),
            None => None,
        }
    }
}

/// Whether an intercept rule catches a destination with the given scheme:
/// `All` catches everything, `Http` exactly the scheme "http", `Https`
/// exactly "https", `Never` nothing.
pub open spec fn intercept_matches(i: Intercept, scheme: Option<Seq<char>>) -> bool {
    match i {
        Intercept::All => true,
        Intercept::Http => scheme == Some("http"@),
        Intercept::Https => scheme == Some("https"@),
        Intercept::Never => false,
    }
}

impl Intercept {
    /// Whether the given destination is proxied under this rule.
    pub fn matches<D: Dst>(&self, uri: &D) -> (r: bool)
        ensures
            r == intercept_matches(*self, uri.scheme_spec()),
    {
        match self {
            Intercept::All => true,
            Intercept::Http => match uri.scheme() {
                Some(s) => str_eq(s, "http"),
                None => false,
            },
            Intercept::Https => match uri.scheme() {
                Some(s) => str_eq(s, "https"),
                None => false,
            },
            Intercept::Never => false,
        }
    }
}

} // verus!
