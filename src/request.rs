use vstd::prelude::*;
use crate::auth::Auth;

verus! {

/// One header or query parameter row; `enabled` says whether it is applied.
#[derive(Debug)]
pub struct KeyValue {
    pub enabled: bool,
    pub data: (String, String),
}

impl View for KeyValue {
    type V = (bool, Seq<char>, Seq<char>);

    open spec fn view(&self) -> (bool, Seq<char>, Seq<char>) {
        (self.enabled, self.data.0@, self.data.1@)
    }
}

/// The rows of a list, as models.
pub open spec fn rows_view(rows: Seq<KeyValue>) -> Seq<(bool, Seq<char>, Seq<char>)> {
    rows.map_values(|kv: KeyValue| kv@)
}

/// Enabled rows made of key/value pairs, in the same order.
pub open spec fn enabled_rows(pairs: Seq<(Seq<char>, Seq<char>)>) -> Seq<(bool, Seq<char>, Seq<char>)> {
    pairs.map_values(|p: (Seq<char>, Seq<char>)| (true, p.0, p.1))
}

/// A list of string pairs, as models.
pub open spec fn pairs_view(pairs: Seq<(String, String)>) -> Seq<(Seq<char>, Seq<char>)> {
    pairs.map_values(|p: (String, String)| (p.0@, p.1@))
}

#[derive(Clone, Copy, Debug, PartialEq, Eq, Structural)]
pub enum Method {
    GET,
    POST,
    PUT,
    PATCH,
    DELETE,
    HEAD,
    OPTIONS,
}

/// The body of a request.
#[derive(Clone, Debug)]
pub enum ContentType {
    NoBody,
    Raw(String),
}

/// One HTTP request. `url` holds no query string: query data lives in `params`.
#[derive(Debug)]
pub struct Request {
    pub name: String,
    pub url: String,
    pub method: Method,
    pub params: Vec<KeyValue>,
    pub headers: Vec<KeyValue>,
    pub auth: Auth,
    pub body: ContentType,
}

impl Request {
    /// An unnamed GET request with no URL, rows, auth or body.
    pub fn new() -> (r: Request)
        ensures
            r.name@.len() == 0,
            r.url@.len() == 0,
            r.method == Method::GET,
            r.params@.len() == 0,
            r.headers@.len() == 0,
            r.auth is NoAuth,
            r.body is NoBody,
    {
        Request {
            name: String::new(),
            url: String::new(),
            method: Method::GET,
            params: Vec::new(),
            headers: Vec::new(),
            auth: Auth::NoAuth,
            body: ContentType::NoBody,
        }
    }
}

/// Turns key/value pairs into enabled rows, keeping their order.
pub fn enabled_rows_from(pairs: Vec<(String, String)>) -> (r: Vec<KeyValue>)
    ensures
        rows_view(r@) == enabled_rows(pairs_view(pairs@)),
{
    let mut r: Vec<KeyValue> = Vec::new();
    let mut i: usize = 0;
    while i < pairs.len()
        invariant
            i <= pairs@.len(),
            rows_view(r@) == enabled_rows(pairs_view(pairs@.subrange(0, i as int))),
        decreases pairs@.len() - i,
    {
        let k = pairs[i].0.clone();
        let v = pairs[i].1.clone();
        let ghost prev = r@;
        r.push(KeyValue { enabled: true, data: (k, v) });
        proof {
            assert(r@ =~= prev.push(r@.last()));
            assert(rows_view(r@) =~= rows_view(prev).push(r@.last()@));
            let head = pairs@.subrange(0, i as int);
            assert(pairs@.subrange(0, i + 1) =~= head.push(pairs@[i as int]));
            assert(pairs_view(head.push(pairs@[i as int])) =~= pairs_view(head).push(
                (pairs@[i as int].0@, pairs@[i as int].1@),
            ));
            assert(enabled_rows(pairs_view(head.push(pairs@[i as int]))) =~= enabled_rows(
                pairs_view(head),
            ).push((true, pairs@[i as int].0@, pairs@[i as int].1@)));
            assert(rows_view(r@) =~= enabled_rows(pairs_view(pairs@.subrange(0, i + 1))));
        }
        i = i + 1;
    }
    assert(pairs@.subrange(0, pairs@.len() as int) =~= pairs@);
    r
}

} // verus!
