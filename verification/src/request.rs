//! The head of an HTTP request as plain values: what the middleware stages
//! read of a request besides its body.

use vstd::prelude::*;
use crate::headers::{header_list, same_but_credentials, Header, HeaderView};

verus! {

/// Method, target, protocol version and header fields of a request, and the
/// peer's address where the server knows it. The target is held as its path
/// and, where it has one, its query.
#[derive(Clone, Debug)]
pub struct RequestHead {
    pub method: String,
    pub path: String,
    pub query: Option<String>,
    pub version: String,
    pub headers: Vec<Header>,
    pub peer: Option<String>,
}

/// The mathematical content of a [`RequestHead`].
pub struct RequestHeadView {
    pub method: Seq<char>,
    pub path: Seq<char>,
    pub query: Option<Seq<char>>,
    pub version: Seq<char>,
    pub headers: Seq<HeaderView>,
    pub peer: Option<Seq<char>>,
}

impl View for RequestHead {
    type V = RequestHeadView;

    open spec fn view(&self) -> RequestHeadView {
        RequestHeadView {
            method: self.method@,
            path: self.path@,
            query: match self.query {
                Some(query) => Some(query@),
                None => None,
            },
            version: self.version@,
            headers: header_list(self.headers@),
            peer: match self.peer {
                Some(peer) => Some(peer@),
                None => None,
            },
        }
    }
}

/// Two request heads that differ at most in the values of their
/// credentials fields.
pub open spec fn same_but_credentials_head(a: RequestHeadView, b: RequestHeadView) -> bool {
    &&& a.method == b.method
    &&& a.path == b.path
    &&& a.query == b.query
    &&& a.version == b.version
    &&& a.peer == b.peer
    &&& same_but_credentials(a.headers, b.headers)
}

/// The target of a request as it is written: the path, then a question mark
/// and the query where there is one.
pub open spec fn target_text(path: Seq<char>, query: Option<Seq<char>>) -> Seq<char> {
    match query {
        Some(q) => path + "?"@ + q,
        None => path,
    }
}

impl RequestHead {
    /// The request's target: path and query.
    pub fn target(&self) -> (target: String)
        ensures
            target@ == target_text(self@.path, self@.query),
    {
        let mut target = String::from_str(self.path.as_str());
        match &self.query {
            Some(query) => {
                target.append("?");
                target.append(query.as_str());
            },
            None => {},
        }
        target
    }
}

} // verus!
