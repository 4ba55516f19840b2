//! How an account's requests leave the machine.

use vstd::prelude::*;
use crate::text::opt_text;

verus! {

/// The route that requests take: straight to the service, or through a
/// proxy of some kind at some address.
#[derive(Debug, PartialEq, Eq)]
pub enum ProxyConfig {
    Direct,
    Proxied { kind: String, url: String },
}

/// What a [`ProxyConfig`] holds.
pub enum ProxyConfigView {
    Direct,
    Proxied { kind: Seq<char>, url: Seq<char> },
}

impl View for ProxyConfig {
    type V = ProxyConfigView;

    open spec fn view(&self) -> ProxyConfigView {
        match self {
            ProxyConfig::Direct => ProxyConfigView::Direct,
            ProxyConfig::Proxied { kind, url } => ProxyConfigView::Proxied {
                kind: kind@,
                url: url@,
            },
        }
    }
}

/// The route that an account's two proxy fields stand for: a proxy where
/// both are present and neither is empty, else the direct route.
pub open spec fn proxy_of(
    proxy_type: Option<Seq<char>>,
    proxy_url: Option<Seq<char>>,
) -> ProxyConfigView {
    match (proxy_type, proxy_url) {
        (Some(kind), Some(url)) => if kind.len() > 0 && url.len() > 0 {
            ProxyConfigView::Proxied { kind, url }
        } else {
            ProxyConfigView::Direct
        },
        _ => ProxyConfigView::Direct,
    }
}

impl ProxyConfig {
    /// Reads the route from an account's two proxy fields. An absent or
    /// empty field means the direct route.
    pub fn from_db(proxy_type: Option<String>, proxy_url: Option<String>) -> (r: Self)
        ensures
            r@ == proxy_of(opt_text(proxy_type), opt_text(proxy_url)),
    {
        match (proxy_type, proxy_url) {
            (Some(kind), Some(url)) => {
                if kind.as_str().is_empty() || url.as_str().is_empty() {
                    ProxyConfig::Direct
                } else {
                    ProxyConfig::Proxied { kind, url }
                }
            },
            _ => ProxyConfig::Direct,
        }
    }

}

impl Clone for ProxyConfig {
    fn clone(&self) -> (r: Self)
        ensures
            r@ == self@,
    {
        match self {
            ProxyConfig::Direct => ProxyConfig::Direct,
            ProxyConfig::Proxied { kind, url } => ProxyConfig::Proxied {
                kind: kind.clone(),
                url: url.clone(),
            },
        }
    }
}

} // verus!
