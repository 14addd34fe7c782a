//! The protocol strategies: what differs between benchmarking over HTTP/1
//! and over HTTP/2. Each strategy says whether the connection negotiates
//! HTTP/2, which ALPN tokens to offer, and how a request is shaped: HTTP/1
//! targets the path and carries an explicit `Host` header, HTTP/2 targets
//! the full URL and leaves the authority to the HTTP/2 layer. User headers
//! are copied verbatim; the body is always empty.
use crate::uri::ParsedUri;
use vstd::prelude::*;

verus! {

/// The shape of one outgoing GET request with an empty body: the request
/// target and the headers to send, in order.
pub struct RequestPlan {
    pub target: Vec<u8>,
    pub headers: Vec<(Vec<u8>, Vec<u8>)>,
}

/// The view of a header list as a sequence of byte-string pairs.
pub open spec fn headers_view(h: Seq<(Vec<u8>, Vec<u8>)>) -> Seq<(Seq<u8>, Seq<u8>)> {
    h.map(|i: int, p: (Vec<u8>, Vec<u8>)| (p.0@, p.1@))
}

/// The view of an ALPN token list as a sequence of byte strings.
pub open spec fn alpn_view(s: Seq<Vec<u8>>) -> Seq<Seq<u8>> {
    s.map(|i: int, v: Vec<u8>| v@)
}

/// A protocol strategy: HTTP/1 or HTTP/2.
pub trait HttpProtocol: Sized {
    /// Whether the connection is to negotiate HTTP/2.
    spec fn spec_is_http2(&self) -> bool;

    /// The ALPN tokens the strategy offers, in order.
    spec fn spec_alpn(&self) -> Seq<Seq<u8>>;

    /// The request target for one GET against `uri`.
    spec fn spec_target(&self, uri: ParsedUri) -> Seq<u8>;

    /// The headers of one GET against `uri` carrying the user headers `user`.
    spec fn spec_headers(&self, uri: ParsedUri, user: Seq<(Seq<u8>, Seq<u8>)>) -> Seq<
        (Seq<u8>, Seq<u8>),
    >;

    fn is_http2(&self) -> (r: bool)
        ensures
            r == self.spec_is_http2(),
    ;

    fn alpn_protocols(&self) -> (r: Vec<Vec<u8>>)
        ensures
            alpn_view(r@) == self.spec_alpn(),
    ;

    fn get_request(&self, uri: &ParsedUri, headers: &Vec<(Vec<u8>, Vec<u8>)>) -> (r: RequestPlan)
        ensures
            r.target@ == self.spec_target(*uri),
            headers_view(r.headers@) == self.spec_headers(*uri, headers_view(headers@)),
    ;
}

/// Copies a header list.
fn copy_headers(headers: &Vec<(Vec<u8>, Vec<u8>)>) -> (r: Vec<(Vec<u8>, Vec<u8>)>)
    ensures
        headers_view(r@) == headers_view(headers@),
{
    let n: usize = headers.len();
    let mut out: Vec<(Vec<u8>, Vec<u8>)> = Vec::new();
    let mut i: usize = 0;
    while i < n
        invariant
            n == headers@.len(),
            i <= n,
            out@.len() == i,
            forall|k: int|
                0 <= k < i ==> #[trigger] out@[k].0@ == headers@[k].0@ && out@[k].1@
                    == headers@[k].1@,
        decreases n - i,
    {
        let name = headers[i].0.clone();
        let value = headers[i].1.clone();
        proof {
            assert(name@ =~= headers@[i as int].0@);
            assert(value@ =~= headers@[i as int].1@);
        }
        out.push((name, value));
        i = i + 1;
    }
    proof {
        assert(headers_view(out@) =~= headers_view(headers@));
    }
    out
}

/// The HTTP/1 strategy.
#[derive(Clone, Copy)]
pub struct Http1;

impl HttpProtocol for Http1 {
    /// HTTP/1 does not negotiate HTTP/2.
    open spec fn spec_is_http2(&self) -> bool {
        false
    }

    /// HTTP/1 offers the single ALPN token `http/1.1`.
    open spec fn spec_alpn(&self) -> Seq<Seq<u8>> {
        seq![seq![104u8, 116u8, 116u8, 112u8, 47u8, 49u8, 46u8, 49u8]]
    }

    /// HTTP/1 targets the URL path.
    open spec fn spec_target(&self, uri: ParsedUri) -> Seq<u8> {
        uri.path@
    }

    /// HTTP/1 sends an explicit `Host` header before the user headers.
    open spec fn spec_headers(&self, uri: ParsedUri, user: Seq<(Seq<u8>, Seq<u8>)>) -> Seq<
        (Seq<u8>, Seq<u8>),
    > {
        seq![(seq![72u8, 111u8, 115u8, 116u8], uri.spec_host_header())] + user
    }

    fn is_http2(&self) -> (r: bool) {
        false
    }

    fn alpn_protocols(&self) -> (r: Vec<Vec<u8>>) {
        let mut token: Vec<u8> = Vec::new();
        token.push(104);
        token.push(116);
        token.push(116);
        token.push(112);
        token.push(47);
        token.push(49);
        token.push(46);
        token.push(49);
        let mut out: Vec<Vec<u8>> = Vec::new();
        let ghost tok = token@;
        out.push(token);
        proof {
            assert(alpn_view(out@)[0] == tok);
            assert(tok =~= seq![104u8, 116u8, 116u8, 112u8, 47u8, 49u8, 46u8, 49u8]);
            assert(alpn_view(out@) =~= self.spec_alpn());
        }
        out
    }

    fn get_request(&self, uri: &ParsedUri, headers: &Vec<(Vec<u8>, Vec<u8>)>) -> (r: RequestPlan) {
        let target = uri.path.clone();
        proof {
            assert(target@ =~= uri.path@);
        }
        let mut hs: Vec<(Vec<u8>, Vec<u8>)> = Vec::new();
        let mut host_name: Vec<u8> = Vec::new();
        host_name.push(72);
        host_name.push(111);
        host_name.push(115);
        host_name.push(116);
        let ghost hn = host_name@;
        hs.push((host_name, uri.host_header()));
        let mut user = copy_headers(headers);
        let ghost uu = user@;
        hs.append(&mut user);
        proof {
            let spec_hs = self.spec_headers(*uri, headers_view(headers@));
            assert(hn =~= seq![72u8, 111u8, 115u8, 116u8]);
            assert(headers_view(uu) == headers_view(headers@));
            assert forall|k: int| 0 <= k < hs@.len() implies #[trigger] headers_view(hs@)[k]
                == spec_hs[k] by {
                assert(headers_view(hs@)[k] == (hs@[k].0@, hs@[k].1@));
                if k == 0 {
                    assert(hs@[0].0@ == hn);
                    assert(hs@[0].1@ == uri.spec_host_header());
                } else {
                    assert(hs@[k] == uu[k - 1]);
                    assert(headers_view(uu)[k - 1] == (uu[k - 1].0@, uu[k - 1].1@));
                }
            }
            assert(headers_view(hs@) =~= spec_hs);
        }
        RequestPlan { target, headers: hs }
    }
}

/// The HTTP/2 strategy.
#[derive(Clone, Copy)]
pub struct Http2;

impl HttpProtocol for Http2 {
    /// HTTP/2 is negotiated.
    open spec fn spec_is_http2(&self) -> bool {
        true
    }

    /// HTTP/2 offers the single ALPN token `h2`.
    open spec fn spec_alpn(&self) -> Seq<Seq<u8>> {
        seq![seq![104u8, 50u8]]
    }

    /// HTTP/2 targets the full URL; the HTTP/2 layer derives `:authority`.
    open spec fn spec_target(&self, uri: ParsedUri) -> Seq<u8> {
        uri.spec_full_target()
    }

    /// HTTP/2 sends the user headers alone.
    open spec fn spec_headers(&self, uri: ParsedUri, user: Seq<(Seq<u8>, Seq<u8>)>) -> Seq<
        (Seq<u8>, Seq<u8>),
    > {
        user
    }

    fn is_http2(&self) -> (r: bool) {
        true
    }

    fn alpn_protocols(&self) -> (r: Vec<Vec<u8>>) {
        let mut token: Vec<u8> = Vec::new();
        token.push(104);
        token.push(50);
        let mut out: Vec<Vec<u8>> = Vec::new();
        let ghost tok = token@;
        out.push(token);
        proof {
            assert(alpn_view(out@)[0] == tok);
            assert(tok =~= seq![104u8, 50u8]);
            assert(alpn_view(out@) =~= self.spec_alpn());
        }
        out
    }

    fn get_request(&self, uri: &ParsedUri, headers: &Vec<(Vec<u8>, Vec<u8>)>) -> (r: RequestPlan) {
        let target = uri.full_target();
        let hs = copy_headers(headers);
        RequestPlan { target, headers: hs }
    }
}

} // verus!
