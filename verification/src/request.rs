//! The request model: the HTTP version, the request head, and the buffered
//! body reader that hands chunks out in caller-sized pieces.

use vstd::prelude::*;
use vstd::string::StrSliceExecFns;

use crate::method::Method;
use crate::strutil::chars_of;

verus! {

/// The HTTP protocol versions a request can arrive under.
#[derive(Clone, Copy, Debug, PartialEq, Eq, Structural)]
pub enum HttpVersion {
    Http09,
    Http10,
    Http11,
    H2,
}

/// The buffered tail of a request body: the bytes of the chunk most recently
/// received that no reader has consumed yet.
pub struct Data {
    chunk: Option<(Vec<u8>, usize)>,
}

impl Data {
    /// The bytes received but not yet consumed.
    pub closed spec fn pending(&self) -> Seq<u8> {
        match self.chunk {
            Some((c, i)) => c@.skip(i as int),
            None => Seq::empty(),
        }
    }

    /// The buffered index never runs past the chunk.
    #[verifier::type_invariant]
    closed spec fn wf(&self) -> bool {
        match self.chunk {
            Some((c, i)) => i <= c@.len(),
            None => true,
        }
    }

    /// An empty body buffer.
    pub fn new() -> (r: Data)
        ensures
            r.pending() == Seq::<u8>::empty(),
    {
        Data { chunk: None }
    }

    /// Stashes a freshly received chunk; only sound once the previous one
    /// has been drained.
    pub fn accept_chunk(&mut self, chunk: Vec<u8>)
        requires
            old(self).pending().len() == 0,
        ensures
            final(self).pending() == chunk@,
    {
        proof {
            assert(chunk@.skip(0) =~= chunk@);
        }
        self.chunk = Some((chunk, 0));
    }

    /// Hands out up to `capacity` pending bytes, in order, keeping the rest
    /// buffered.
    pub fn read_into(&mut self, capacity: usize) -> (out: Vec<u8>)
        ensures
            out@ == old(self).pending().take(spec_min(capacity as int, old(self).pending().len() as int)),
            final(self).pending() == old(self).pending().skip(spec_min(
                capacity as int,
                old(self).pending().len() as int,
            )),
    {
        proof {
            use_type_invariant(&*self);
        }
        let mut taken: Option<(Vec<u8>, usize)> = None;
        core::mem::swap(&mut taken, &mut self.chunk);
        match taken {
            None => {
                let out: Vec<u8> = Vec::new();
                proof {
                    assert(out@ =~= old(self).pending().take(0));
                    assert(self.pending() =~= old(self).pending().skip(0));
                }
                out
            },
            Some((chunk, index)) => {
                let len = chunk.len();
                let avail = len - index;
                let step = if capacity < avail {
                    capacity
                } else {
                    avail
                };
                let mut out: Vec<u8> = Vec::new();
                let mut k: usize = 0;
                while k < step
                    invariant
                        k <= step,
                        len == chunk@.len(),
                        index + step <= len,
                        out@ == chunk@.subrange(index as int, index + k),
                    decreases step - k,
                {
                    out.push(chunk[index + k]);
                    k = k + 1;
                    proof {
                        assert(out@ =~= chunk@.subrange(index as int, index + k));
                    }
                }
                let ghost m = spec_min(capacity as int, old(self).pending().len() as int);
                proof {
                    assert(m == step);
                    assert(out@ =~= old(self).pending().take(m));
                }
                if index + step < len {
                    self.chunk = Some((chunk, index + step));
                } else {
                    self.chunk = None;
                }
                proof {
                    assert(self.pending() =~= old(self).pending().skip(m));
                }
                out
            },
        }
    }
}

/// The smaller of two numbers.
pub open spec fn spec_min(a: int, b: int) -> int {
    if a < b {
        a
    } else {
        b
    }
}

/// Where the query part of a request target starts: the position of the
/// first question mark, or the end.
pub open spec fn spec_query_start(uri: Seq<char>) -> int
    decreases uri.len(),
{
    if uri.len() == 0 {
        0
    } else if uri[0] == '?' {
        0
    } else {
        1 + spec_query_start(uri.drop_first())
    }
}

/// The path part of a request target: everything before the query.
pub open spec fn spec_path_of(uri: Seq<char>) -> Seq<char> {
    uri.take(spec_query_start(uri))
}

/// A position with no question mark before it, that holds one or is the
/// end, is where the query starts.
proof fn lemma_query_start(uri: Seq<char>, i: int)
    requires
        0 <= i <= uri.len(),
        forall|k: int| 0 <= k < i ==> uri[k] != '?',
        i == uri.len() || uri[i] == '?',
    ensures
        spec_query_start(uri) == i,
    decreases uri.len(),
{
    if uri.len() > 0 && uri[0] != '?' {
        assert forall|k: int| 0 <= k < i - 1 implies uri.drop_first()[k] != '?' by {
            assert(uri.drop_first()[k] == uri[k + 1]);
        }
        if i < uri.len() {
            assert(uri.drop_first()[i - 1] == uri[i]);
        }
        lemma_query_start(uri.drop_first(), i - 1);
    }
}

/// One HTTP request as the handlers see it: the request head and the body
/// buffer.
pub struct Request {
    method: Method,
    uri: String,
    version: HttpVersion,
    headers: Vec<(String, String)>,
    body: Data,
}

impl Request {
    pub closed spec fn spec_method(&self) -> Method {
        self.method
    }

    pub closed spec fn spec_uri(&self) -> Seq<char> {
        self.uri@
    }

    pub closed spec fn spec_version(&self) -> HttpVersion {
        self.version
    }

    pub closed spec fn spec_headers(&self) -> Seq<(Seq<char>, Seq<char>)> {
        self.headers.deep_view()
    }

    pub closed spec fn spec_pending(&self) -> Seq<u8> {
        self.body.pending()
    }

    /// Assembles a request from its parsed components.
    pub fn new(components: (Method, String, HttpVersion, Vec<(String, String)>, Data)) -> (r:
        Request)
        ensures
            r.spec_method() == components.0,
            r.spec_uri() == components.1@,
            r.spec_version() == components.2,
            r.spec_headers() == components.3.deep_view(),
            r.spec_pending() == components.4.pending(),
    {
        let (method, uri, version, headers, body) = components;
        Request { method, uri, version, headers, body }
    }

    /// The request HTTP version.
    pub fn version(&self) -> (r: HttpVersion)
        ensures
            r == self.spec_version(),
    {
        self.version
    }

    /// The request headers, in arrival order.
    pub fn headers(&self) -> (r: &Vec<(String, String)>)
        ensures
            r.deep_view() == self.spec_headers(),
    {
        &self.headers
    }

    /// The request method.
    pub fn method(&self) -> (r: Method)
        ensures
            r == self.spec_method(),
    {
        self.method
    }

    /// The request target as received.
    pub fn uri(&self) -> (r: &str)
        ensures
            r@ == self.spec_uri(),
    {
        self.uri.as_str()
    }

    /// The path part of the request target.
    pub fn path(&self) -> (r: &str)
        ensures
            r@ == spec_path_of(self.spec_uri()),
    {
        let chars = chars_of(self.uri.as_str());
        let n = chars.len();
        let mut i: usize = 0;
        while i < n && chars[i] != '?'
            invariant
                i <= n,
                n == chars@.len(),
                chars@ == self.spec_uri(),
                forall|k: int| 0 <= k < i ==> chars@[k] != '?',
            decreases n - i,
        {
            i = i + 1;
        }
        proof {
            lemma_query_start(self.spec_uri(), i as int);
        }
        self.uri.as_str().substring_char(0, i)
    }

    /// Takes the request body buffer.
    pub fn data(self) -> (r: Data)
        ensures
            r.pending() == self.spec_pending(),
    {
        self.body
    }
}

} // verus!
