//! The target of the benchmark, reduced to what the request shaping and the
//! connectors read of it: the scheme, the host, the port as written in the
//! URL if any, and the path. The socket address the host resolves to is kept
//! by the caller that performed the lookup.
use crate::duration::{decimal_bytes, spec_decimal};
use vstd::prelude::*;

verus! {

/// The scheme of the target URL.
#[derive(Clone, Copy, PartialEq, Eq, Structural, Debug)]
pub enum Scheme {
    HTTP,
    HTTPS,
}

impl Scheme {
    /// The port the scheme implies when the URL names none.
    pub open spec fn spec_default_port(self) -> u16 {
        match self {
            Scheme::HTTP => 80,
            Scheme::HTTPS => 443,
        }
    }

    /// Returns the scheme's default port, 80 or 443.
    pub fn default_port(self) -> (r: u16)
        ensures
            r == self.spec_default_port(),
    {
        match self {
            Scheme::HTTP => 80,
            Scheme::HTTPS => 443,
        }
    }
}

/// A target URL after parsing and one-time address resolution: scheme, host,
/// the port the URL names if any, and the request path.
pub struct ParsedUri {
    pub scheme: Scheme,
    pub host: Vec<u8>,
    pub explicit_port: Option<u16>,
    pub path: Vec<u8>,
}

impl ParsedUri {
    /// A well-formed target has a non-empty host and a path that begins with
    /// a slash.
    pub open spec fn wf(self) -> bool {
        &&& self.host@.len() > 0
        &&& self.path@.len() > 0
        &&& self.path@[0] == 47u8
    }

    /// The port a connection is made to: the explicit one, else the scheme's
    /// default.
    pub open spec fn spec_port(self) -> u16 {
        match self.explicit_port {
            Some(p) => p,
            None => self.scheme.spec_default_port(),
        }
    }

    /// Returns the effective port.
    pub fn port(&self) -> (r: u16)
        ensures
            r == self.spec_port(),
    {
        match self.explicit_port {
            Some(p) => p,
            None => self.scheme.default_port(),
        }
    }

    /// The value of an HTTP/1 `Host` header for this target: the host, with
    /// `:port` appended exactly when the URL named a port.
    pub open spec fn spec_host_header(self) -> Seq<u8> {
        match self.explicit_port {
            Some(p) => self.host@ + seq![58u8] + spec_decimal(p as nat),
            None => self.host@,
        }
    }

    /// Builds the `Host` header value.
    pub fn host_header(&self) -> (r: Vec<u8>)
        ensures
            r@ == self.spec_host_header(),
    {
        let mut out = self.host.clone();
        proof {
            assert(out@ =~= self.host@);
        }
        match self.explicit_port {
            Some(p) => {
                out.push(58);
                let mut digits = decimal_bytes(p as u64);
                out.append(&mut digits);
                proof {
                    assert(out@ =~= self.spec_host_header());
                }
                out
            },
            None => out,
        }
    }

    /// The scheme as it is written in a URL.
    pub open spec fn spec_scheme_bytes(self) -> Seq<u8> {
        match self.scheme {
            Scheme::HTTP => seq![104u8, 116u8, 116u8, 112u8],
            Scheme::HTTPS => seq![104u8, 116u8, 116u8, 112u8, 115u8],
        }
    }

    /// The full form of the target URL, rebuilt from its parts: scheme,
    /// `://`, host, `:port` when the URL named one, then the path.
    pub open spec fn spec_full_target(self) -> Seq<u8> {
        self.spec_scheme_bytes() + seq![58u8, 47u8, 47u8] + self.spec_host_header() + self.path@
    }

    /// Builds the full target URL.
    pub fn full_target(&self) -> (r: Vec<u8>)
        ensures
            r@ == self.spec_full_target(),
    {
        let mut out: Vec<u8> = Vec::new();
        out.push(104);
        out.push(116);
        out.push(116);
        out.push(112);
        match self.scheme {
            Scheme::HTTPS => {
                out.push(115);
            },
            Scheme::HTTP => {},
        }
        out.push(58);
        out.push(47);
        out.push(47);
        let mut hh = self.host_header();
        out.append(&mut hh);
        let mut p = self.path.clone();
        proof {
            assert(p@ =~= self.path@);
        }
        out.append(&mut p);
        proof {
            assert(out@ =~= self.spec_full_target());
        }
        out
    }
}

} // verus!
