//! No-op proxy configuration.
//!
//! On this target the host runtime owns every networking decision, so proxy
//! settings carry no state: every constructor returns the same (only) value
//! and every mutator hands the receiver back unchanged. The types exist so
//! that code written against the full client's proxy API compiles and runs
//! unchanged here.

use vstd::prelude::*;

verus! {

/// A proxy configuration that does nothing.
///
/// It holds no data: all `Proxy` values are equal
/// (see [`lemma_proxy_values_equal`]), no constructor has a precondition, and
/// no method changes anything.
#[derive(Clone, Debug)]
#[verifier::ext_equal]
pub struct Proxy;

impl Proxy {
    /// No-op HTTP proxy constructor.
    pub fn http(_url: &str) -> (r: Proxy)
        ensures
            r == (Proxy {}),
    {
        Proxy
    }

    /// No-op HTTPS proxy constructor.
    pub fn https(_url: &str) -> (r: Proxy)
        ensures
            r == (Proxy {}),
    {
        Proxy
    }

    /// No-op proxy constructor for all schemes.
    pub fn all(_url: &str) -> (r: Proxy)
        ensures
            r == (Proxy {}),
    {
        Proxy
    }

    /// No-op custom proxy constructor.
    pub fn custom<F>(_func: F) -> (r: Proxy) where
        F: Fn(&str) -> Option<String> + Send + Sync + 'static,

        ensures
            r == (Proxy {}),
    {
        Proxy
    }

    /// No-op basic auth setter: returns the receiver unchanged.
    pub fn basic_auth(&self, _username: &str, _password: &str) -> (r: &Self)
        ensures
            r == self,
    {
        self
    }

    /// No-op custom HTTP auth setter: returns the receiver unchanged.
    pub fn custom_http_auth(&self, _auth: &str) -> (r: &Self)
        ensures
            r == self,
    {
        self
    }

    /// No-op `no_proxy` setter: returns the receiver unchanged.
    pub fn no_proxy(&self) -> (r: &Self)
        ensures
            r == self,
    {
        self
    }
}

/// Every two `Proxy` values are equal: the type holds no data, so whatever
/// chain of constructors and setters produced them, the results are
/// indistinguishable.
pub proof fn lemma_proxy_values_equal(p: Proxy, q: Proxy)
    ensures
        p == q,
{
    assert(p =~= q);
}

/// Placeholder proxy scheme vocabulary. Nothing in this adapter ever
/// inspects or branches on it.
#[derive(Clone, Debug)]
pub enum ProxyScheme {
    Http,
    Https,
    Socks5,
}

/// Conversion into a [`ProxyScheme`], kept for interface compatibility with
/// the full client's API.
pub trait IntoProxyScheme {
    /// Convert the receiver into a [`ProxyScheme`].
    fn into_proxy_scheme(self) -> ProxyScheme;
}

impl IntoProxyScheme for ProxyScheme {
    fn into_proxy_scheme(self) -> (r: ProxyScheme) {
        self
    }
}

} // verus!
