//! Addresses of the internet protocol, in either version.
use crate::utils::ip::{
    ipv4_from_parts, ipv4_from_str, ipv4_text, ipv4_to_str, ipv4_value, ipv6_from_parts,
    ipv6_from_str, ipv6_text, ipv6_to_str, ipv6_value, is_local_ipv4, is_local_ipv6,
    lemma_ipv4_text_is_read_back, lemma_ipv6_text_is_no_ipv4, lemma_ipv6_text_is_read_back,
    local_ipv4, local_ipv6, packed,
};
use vstd::prelude::*;
use vstd::std_specs::convert::FromSpecImpl;
use vstd::string::*;

verus! {

/// An address of version 4 or of version 6, as a number. Addresses of
/// different versions are never equal.
#[derive(Debug, Clone, Copy, PartialEq, Eq, Hash, Structural)]
pub enum Ip {
    V4(u32),
    V6(u128),
}

impl Ip {
    /// The address as text.
    pub open spec fn text(self) -> Seq<char> {
        match self {
            Ip::V4(ip) => ipv4_text(ip),
            Ip::V6(ip) => ipv6_text(ip),
        }
    }

    /// Whether the address belongs to a private network, to the machine
    /// itself or to the local link.
    pub fn is_local(&self) -> (r: bool)
        ensures
            r == match self {
                Ip::V4(ip) => local_ipv4(*ip),
                Ip::V6(ip) => local_ipv6(*ip),
            },
    {
        match self {
            Ip::V4(ip) => is_local_ipv4(*ip),
            Ip::V6(ip) => is_local_ipv6(*ip),
        }
    }

    /// Whether the text names this address, in the notation of its version.
    pub fn equals(&self, val: &str) -> (r: bool)
        ensures
            r == match self {
                Ip::V4(ip) => ipv4_value(val@) == Some(*ip),
                Ip::V6(ip) => ipv6_value(val@) == Some(*ip),
            },
    {
        match self {
            Ip::V4(ip1) => match ipv4_from_str(val) {
                Some(ip2) => *ip1 == ip2,
                None => false,
            },
            Ip::V6(ip1) => match ipv6_from_str(val) {
                Some(ip2) => *ip1 == ip2,
                None => false,
            },
        }
    }

    /// The address that a text names: one of version 4 where the text is in
    /// dotted decimal notation, else one of version 6 where it is in the
    /// notation of that version, else an error.
    pub fn from_ip_str(val: &str) -> (r: Result<Ip, &'static str>)
        ensures
            match r {
                Ok(ip) => ip_value(val@) == Some(ip),
                Err(e) => ip_value(val@) is None && e@ == "Invalid IP format"@,
            },
    {
        match ipv4_from_str(val) {
            Some(v) => Ok(Ip::V4(v)),
            None => match ipv6_from_str(val) {
                Some(v) => Ok(Ip::V6(v)),
                None => Err("Invalid IP format"),
            },
        }
    }

    /// The address as text: dotted decimal notation for version 4, groups
    /// in hexadecimal for version 6.
    pub fn to_string(&self) -> (s: String)
        ensures
            s@ == self.text(),
    {
        match self {
            Ip::V4(ip) => ipv4_to_str(*ip),
            Ip::V6(ip) => ipv6_to_str(*ip),
        }
    }
}

/// The address that a text names, as `from_ip_str` reads it.
pub open spec fn ip_value(s: Seq<char>) -> Option<Ip> {
    match ipv4_value(s) {
        Some(v) => Some(Ip::V4(v)),
        None => match ipv6_value(s) {
            Some(v) => Some(Ip::V6(v)),
            None => None,
        },
    }
}

/// What is written is read back: the text of an address names that
/// address, of the same version.
pub proof fn lemma_text_is_read_back(ip: Ip)
    ensures
        ip_value(ip.text()) == Some(ip),
{
    match ip {
        Ip::V4(v) => {
            lemma_ipv4_text_is_read_back(v);
        },
        Ip::V6(v) => {
            lemma_ipv6_text_is_no_ipv4(v);
            lemma_ipv6_text_is_read_back(v);
        },
    }
}

impl From<[u32; 4]> for Ip {
    fn from(v: [u32; 4]) -> (r: Self) {
        Ip::V4(ipv4_from_parts(v))
    }
}

impl FromSpecImpl<[u32; 4]> for Ip {
    open spec fn obeys_from_spec() -> bool {
        true
    }

    /// The address of version 4 whose bytes are the low bytes of the parts.
    open spec fn from_spec(v: [u32; 4]) -> Self {
        Ip::V4(packed(v@, 4) as u32)
    }
}

impl From<[u32; 16]> for Ip {
    fn from(v: [u32; 16]) -> (r: Self) {
        Ip::V6(ipv6_from_parts(v))
    }
}

impl FromSpecImpl<[u32; 16]> for Ip {
    open spec fn obeys_from_spec() -> bool {
        true
    }

    /// The address of version 6 whose bytes are the low bytes of the parts.
    open spec fn from_spec(v: [u32; 16]) -> Self {
        Ip::V6(packed(v@, 16) as u128)
    }
}

impl From<&u32> for Ip {
    fn from(v: &u32) -> (r: Self) {
        Ip::V4(*v)
    }
}

impl FromSpecImpl<&u32> for Ip {
    open spec fn obeys_from_spec() -> bool {
        true
    }

    open spec fn from_spec(v: &u32) -> Self {
        Ip::V4(*v)
    }
}

impl From<u32> for Ip {
    fn from(v: u32) -> (r: Self) {
        Ip::V4(v)
    }
}

impl FromSpecImpl<u32> for Ip {
    open spec fn obeys_from_spec() -> bool {
        true
    }

    open spec fn from_spec(v: u32) -> Self {
        Ip::V4(v)
    }
}

impl From<&u128> for Ip {
    fn from(v: &u128) -> (r: Self) {
        Ip::V6(*v)
    }
}

impl FromSpecImpl<&u128> for Ip {
    open spec fn obeys_from_spec() -> bool {
        true
    }

    open spec fn from_spec(v: &u128) -> Self {
        Ip::V6(*v)
    }
}

impl From<u128> for Ip {
    fn from(v: u128) -> (r: Self) {
        Ip::V6(v)
    }
}

impl FromSpecImpl<u128> for Ip {
    open spec fn obeys_from_spec() -> bool {
        true
    }

    open spec fn from_spec(v: u128) -> Self {
        Ip::V6(v)
    }
}

} // verus!
