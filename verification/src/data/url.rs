//! Web addresses, read with the `url` crate.

use vstd::prelude::*;
use vstd::string::*;
use crate::text::opt_text;

verus! {

/// The normal form that the `url` crate gives an absolute address, `None`
/// for a text that it refuses.
pub uninterp spec fn url_normal_form(text: Seq<char>) -> Option<Seq<char>>;

/// `Url::parse(text)`, turned into a `String`: the serialization of the
/// parsed address, or `None` where parsing fails.
#[verifier::external_body]
fn url_parse(text: &str) -> (r: Option<String>)
    ensures
        opt_text(r) == url_normal_form(text@),
{
    url::Url::parse(text).ok().map(String::from)
}

/// What an address in a field that may be empty stands for: nothing for
/// the empty text, else the normal form of the address; an error for a
/// text that is no address.
pub open spec fn optional_url(text: Seq<char>) -> Result<Option<Seq<char>>, ()> {
    if text.len() == 0 {
        Ok(None)
    } else {
        match url_normal_form(text) {
            Some(url) => Ok(Some(url)),
            None => Err(()),
        }
    }
}

/// Reads an absolute address and returns its normal form.
pub fn parse_url(text: &str) -> (r: Option<String>)
    ensures
        opt_text(r) == url_normal_form(text@),
{
    url_parse(text)
}

/// Reads an address from a field that may be empty.
pub fn parse_optional_url(text: &str) -> (r: Result<Option<String>, ()>)
    ensures
        match r {
            Ok(url) => optional_url(text@) == Ok::<Option<Seq<char>>, ()>(opt_text(url)),
            Err(_) => optional_url(text@) is Err,
        },
{
    if text.is_empty() {
        Ok(None)
    } else {
        match url_parse(text) {
            Some(url) => Ok(Some(url)),
            None => Err(()),
        }
    }
}

/// The host that an address names.
#[derive(Debug)]
pub enum LocationHost {
    /// The text is no address.
    Unparsable,
    /// The address names no host.
    Missing,
    /// A domain name.
    Domain(String),
    /// An IPv4 address, in dotted form.
    Ipv4(String),
    /// An IPv6 address, in its short form.
    Ipv6(String),
}

/// A `LocationHost` as plain values.
pub ghost enum LocationHostView {
    Unparsable,
    Missing,
    Domain(Seq<char>),
    Ipv4(Seq<char>),
    Ipv6(Seq<char>),
}

impl View for LocationHost {
    type V = LocationHostView;

    open spec fn view(&self) -> LocationHostView {
        match self {
            LocationHost::Unparsable => LocationHostView::Unparsable,
            LocationHost::Missing => LocationHostView::Missing,
            LocationHost::Domain(t) => LocationHostView::Domain(t@),
            LocationHost::Ipv4(t) => LocationHostView::Ipv4(t@),
            LocationHost::Ipv6(t) => LocationHostView::Ipv6(t@),
        }
    }
}

/// The host that the `url` crate finds in an address.
pub uninterp spec fn url_host(text: Seq<char>) -> LocationHostView;

/// `Url::parse(text)` and `Url::host()` of the result: which kind of host
/// the address names, with the host as text.
#[verifier::external_body]
fn url_host_of(text: &str) -> (r: LocationHost)
    ensures
        r@ == url_host(text@),
{
    match url::Url::parse(text) {
        Err(_) => LocationHost::Unparsable,
        Ok(parsed) => match parsed.host() {
            None => LocationHost::Missing,
            Some(url::Host::Domain(name)) => LocationHost::Domain(name.to_string()),
            Some(url::Host::Ipv4(address)) => LocationHost::Ipv4(address.to_string()),
            Some(url::Host::Ipv6(address)) => LocationHost::Ipv6(address.to_string()),
        },
    }
}

/// The network address that a host stands for: the address itself for a
/// numeric host, nothing for a domain name or where there is no host.
pub open spec fn host_address(host: LocationHostView) -> Option<Seq<char>> {
    match host {
        LocationHostView::Ipv4(address) => Some(address),
        LocationHostView::Ipv6(address) => Some(address),
        _ => None,
    }
}

/// The network address that a host stands for.
pub fn address_of_host(host: LocationHost) -> (r: Option<String>)
    ensures
        opt_text(r) == host_address(host@),
{
    match host {
        LocationHost::Ipv4(address) => Some(address),
        LocationHost::Ipv6(address) => Some(address),
        _ => None,
    }
}

/// The network address of the device that announced itself under the
/// address `location`, where that address names the device by number.
pub fn address_of_location(location: &str) -> (r: Option<String>)
    ensures
        opt_text(r) == host_address(url_host(location@)),
{
    address_of_host(url_host_of(location))
}

} // verus!
