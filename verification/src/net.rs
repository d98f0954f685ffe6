//! Listen-address handling: a plain-value model of socket addresses, and
//! the expansion of the `:port` shorthand into one IPv4 and one IPv6
//! wildcard address. Resolving a host name is the caller's job; the library
//! only decides what there is to bind.

use vstd::prelude::*;
use vstd::string::StrSliceExecFns;

use crate::errors::IoFailure;
use crate::errors::IoFailureKind;
use crate::errors::ListenError;
use crate::errors::ListenErrorKind;
use crate::strutil::parse_u16;
use crate::strutil::spec_parse_u16;

verus! {

/// A host address as plain values: four IPv4 octets or eight IPv6 groups.
#[derive(Clone, Copy, Debug, PartialEq, Eq, Structural)]
pub enum HostAddress {
    V4(u8, u8, u8, u8),
    V6(u16, u16, u16, u16, u16, u16, u16, u16),
}

/// A socket address as plain values.
#[derive(Clone, Copy, Debug, PartialEq, Eq, Structural)]
pub struct SocketAddress {
    pub host: HostAddress,
    pub port: u16,
}

/// The IPv4 wildcard address `0.0.0.0` at the given port.
pub open spec fn spec_v4_any(port: u16) -> SocketAddress {
    SocketAddress { host: HostAddress::V4(0, 0, 0, 0), port }
}

/// The IPv6 wildcard address `::` at the given port.
pub open spec fn spec_v6_any(port: u16) -> SocketAddress {
    SocketAddress { host: HostAddress::V6(0, 0, 0, 0, 0, 0, 0, 0), port }
}

/// What a listen-address string asks for: concrete addresses to bind, or a
/// host and port string for the caller's resolver.
pub enum ListenTarget {
    Addresses(Vec<SocketAddress>),
    Resolve(String),
}

/// The mathematical picture of a listen target.
pub enum ListenTargetView {
    Addresses(Seq<SocketAddress>),
    Resolve(Seq<char>),
}

impl View for ListenTarget {
    type V = ListenTargetView;

    open spec fn view(&self) -> ListenTargetView {
        match self {
            ListenTarget::Addresses(v) => ListenTargetView::Addresses(v@),
            ListenTarget::Resolve(s) => ListenTargetView::Resolve(s@),
        }
    }
}

/// What a listen-address string expands to: a string starting with `:` is a
/// bare port and names exactly the IPv4 wildcard and the IPv6 wildcard at
/// that port, in that order; a bare port that does not parse is rejected;
/// anything else is left to the resolver.
pub open spec fn spec_listen_expansion(s: Seq<char>) -> Option<ListenTargetView> {
    if s.len() > 0 && s[0] == ':' {
        match spec_parse_u16(s.drop_first()) {
            Some(port) => Some(
                ListenTargetView::Addresses(seq![spec_v4_any(port), spec_v6_any(port)]),
            ),
            None => None,
        }
    } else {
        Some(ListenTargetView::Resolve(s))
    }
}

/// Expands a listen-address string: `:port` means both wildcard addresses
/// at that port; everything else is handed to the resolver as written. The
/// one rejected input is a `:port` whose port does not parse.
pub fn to_socket_addrs_ext(addr: &str) -> (r: Result<ListenTarget, ListenError>)
    ensures
        match r {
            Ok(t) => spec_listen_expansion(addr@) == Some(t@),
            Err(e) => spec_listen_expansion(addr@) is None && (e.kind matches ListenErrorKind::Io(
                io,
            ) && io.kind == IoFailureKind::Other),
        },
{
    let chars = crate::strutil::chars_of(addr);
    if chars.len() > 0 && chars[0] == ':' {
        let rest = addr.substring_char(1, chars.len());
        proof {
            assert(rest@ =~= addr@.drop_first());
        }
        match parse_u16(rest) {
            Some(port) => {
                let mut addresses: Vec<SocketAddress> = Vec::new();
                addresses.push(SocketAddress { host: HostAddress::V4(0, 0, 0, 0), port });
                addresses.push(
                    SocketAddress { host: HostAddress::V6(0, 0, 0, 0, 0, 0, 0, 0), port },
                );
                proof {
                    assert(addresses@ =~= seq![spec_v4_any(port), spec_v6_any(port)]);
                }
                Ok(ListenTarget::Addresses(addresses))
            },
            None => Err(
                ListenError::from_io(
                    IoFailure::new(
                        IoFailureKind::Other,
                        "the listen address names no valid port".to_owned(),
                    ),
                ),
            ),
        }
    } else {
        Ok(ListenTarget::Resolve(addr.to_owned()))
    }
}

} // verus!
