use vstd::prelude::*;
use crate::auth::{Auth, AuthModel};
use crate::request::{
    enabled_rows, enabled_rows_from, pairs_view, rows_view, ContentType, KeyValue, Method, Request,
};
use crate::text::{
    eq_ignore_ascii_case, same_text, same_text_ignore_ascii_case, split_once, split_once_spec,
    two_words, two_words_spec,
};

verus! {

/// A cURL command read into its parts: the target URL, the single-valued options
/// (`-X`, `-u`, ... by their name without dashes), the `-H` headers and the raw body.
#[derive(Debug)]
pub struct CurlCommand {
    pub url: String,
    pub options: Vec<(String, String)>,
    pub headers: Vec<(String, String)>,
    pub data_raw: String,
}

/// Why an import failed.
#[derive(Clone, Copy, Debug, PartialEq, Eq, Structural)]
pub enum ImportError {
    MalformedCurl,
    NoFileName,
    InvalidUrl,
}

/// Whether the text parses as a URL.
pub uninterp spec fn url_parses(s: Seq<char>) -> bool;

/// The decoded query pairs of a URL, in order of appearance.
pub uninterp spec fn query_pairs_of(s: Seq<char>) -> Seq<(Seq<char>, Seq<char>)>;

/// The serialization of a URL with its query removed.
pub uninterp spec fn url_without_query(s: Seq<char>) -> Seq<char>;

/// Whether the text reads as a cURL command.
pub uninterp spec fn curl_parses(text: Seq<char>) -> bool;

/// The target URL of a cURL command.
pub uninterp spec fn curl_url_of(text: Seq<char>) -> Seq<char>;

/// The raw body (`--data-raw`) of a cURL command, empty where it has none.
pub uninterp spec fn curl_data_raw_of(text: Seq<char>) -> Seq<char>;

/// The stem of the last component of a path, if it has a file name.
pub uninterp spec fn file_stem_of(path: Seq<char>) -> Option<Seq<char>>;

/// Relies on reqwest::Url::parse (whether the text is a URL) and Url::query_pairs
/// (the decoded query pairs, in order of appearance).
#[verifier::external_body]
fn url_query_pairs(s: &str) -> (r: Option<Vec<(String, String)>>)
    ensures
        r is Some <==> url_parses(s@),
        r matches Some(v) ==> pairs_view(v@) == query_pairs_of(s@),
{
    match reqwest::Url::parse(s) {
        Ok(u) => Some(u.query_pairs().map(|(k, v)| (k.into_owned(), v.into_owned())).collect()),
        Err(_) => None,
    }
}

/// Relies on reqwest::Url::parse (whether the text is a URL), Url::set_query with
/// `None` and the URL's serialization: the URL without its query.
#[verifier::external_body]
fn url_base(s: &str) -> (r: Option<String>)
    ensures
        r is Some <==> url_parses(s@),
        r matches Some(t) ==> t@ == url_without_query(s@),
{
    match reqwest::Url::parse(s) {
        Ok(mut u) => {
            u.set_query(None);
            Some(u.to_string())
        },
        Err(_) => None,
    }
}

/// Relies on std::path::Path::file_stem: the file name of a path without its
/// extension, or nothing where the path has no file name (an empty path has none).
#[verifier::external_body]
fn file_stem(path: &str) -> (r: Option<String>)
    ensures
        match r {
            Some(s) => file_stem_of(path@) == Some(s@),
            None => file_stem_of(path@) is None,
        },
        path@.len() == 0 ==> r is None,
{
    std::path::Path::new(path).file_stem().and_then(|s| s.to_str()).map(|s| s.to_string())
}

/// Relies on parser4curls::parse to read the text of a cURL command: whether it
/// reads, its URL and its raw body depend on the text alone. The options and
/// headers come from hash maps, so their order is unspecified.
#[verifier::external_body]
fn parse_curl(text: &str) -> (r: Option<CurlCommand>)
    ensures
        r is Some <==> curl_parses(text@),
        r matches Some(c) ==> c.url@ == curl_url_of(text@) && c.data_raw@ == curl_data_raw_of(text@),
{
    let (_, c) = parser4curls::parse(text).ok()?;
    Some(CurlCommand {
        url: c.url.to_string(),
        options: c.options_more.iter().map(|(k, v)| (k.to_string(), v.to_string())).collect(),
        headers: c.options_headers_more.iter().map(|(k, v)| (k.to_string(), v.to_string())).collect(),
        data_raw: c.options_data_raw.to_string(),
    })
}

/// Which keys a lookup accepts.
pub enum KeyMatch {
    Exactly(Seq<char>),
    Authorization,
}

pub open spec fn authorization_name() -> Seq<char> {
    seq!['A', 'u', 't', 'h', 'o', 'r', 'i', 'z', 'a', 't', 'i', 'o', 'n']
}

/// Whether a header name is `Authorization`, up to ASCII case.
pub open spec fn is_authorization(k: Seq<char>) -> bool {
    eq_ignore_ascii_case(k, authorization_name())
}

pub open spec fn key_matches(m: KeyMatch, k: Seq<char>) -> bool {
    match m {
        KeyMatch::Exactly(key) => k == key,
        KeyMatch::Authorization => is_authorization(k),
    }
}

/// The value of the first pair whose key matches.
pub open spec fn lookup(pairs: Seq<(Seq<char>, Seq<char>)>, m: KeyMatch) -> Option<Seq<char>> {
    if exists|i: int| 0 <= i < pairs.len() && key_matches(m, pairs[i].0) {
        let i = choose|i: int|
            0 <= i < pairs.len() && key_matches(m, pairs[i].0) && forall|j: int|
                0 <= j < i ==> !key_matches(m, #[trigger] pairs[j].0);
        Some(pairs[i].1)
    } else {
        None
    }
}

/// The headers that are kept as rows: all but `Authorization`, in order.
pub open spec fn kept_headers(h: Seq<(Seq<char>, Seq<char>)>) -> Seq<(Seq<char>, Seq<char>)>
    decreases h.len(),
{
    if h.len() == 0 {
        h
    } else if is_authorization(h.last().0) {
        kept_headers(h.drop_last())
    } else {
        kept_headers(h.drop_last()).push(h.last())
    }
}

pub open spec fn put_name() -> Seq<char> {
    seq!['P', 'U', 'T']
}

pub open spec fn delete_name() -> Seq<char> {
    seq!['D', 'E', 'L', 'E', 'T', 'E']
}

pub open spec fn bearer_name() -> Seq<char> {
    seq!['B', 'e', 'a', 'r', 'e', 'r']
}

/// Method inference: `-X PUT` or `-X DELETE` win; otherwise a non-empty body means
/// POST; otherwise GET.
pub open spec fn method_for(x: Option<Seq<char>>, body: Seq<char>) -> Method {
    if x == Some(put_name()) {
        Method::PUT
    } else if x == Some(delete_name()) {
        Method::DELETE
    } else if body.len() > 0 {
        Method::POST
    } else {
        Method::GET
    }
}

/// Bearer detection on an `Authorization` value: the word `Bearer`, followed by
/// a second word, which is the token.
pub open spec fn bearer_token_of(v: Seq<char>) -> Option<Seq<char>> {
    match two_words_spec(v) {
        Some((w0, w1)) => if w0 == bearer_name() {
            Some(w1)
        } else {
            None
        },
        None => None,
    }
}

/// Auth detection: a `-u user:pass` split at its first colon; else a bearer
/// `Authorization` header; else no auth.
pub open spec fn auth_for(
    options: Seq<(Seq<char>, Seq<char>)>,
    headers: Seq<(Seq<char>, Seq<char>)>,
) -> AuthModel {
    let basic = match lookup(options, KeyMatch::Exactly(seq!['u'])) {
        Some(u) => split_once_spec(u, ':'),
        None => None,
    };
    let bearer = match lookup(headers, KeyMatch::Authorization) {
        Some(v) => bearer_token_of(v),
        None => None,
    };
    match basic {
        Some((user, pass)) => AuthModel::BasicAuth(user, pass),
        None => match bearer {
            Some(t) => AuthModel::BearerToken(t),
            None => AuthModel::NoAuth,
        },
    }
}

/// `req` is what a cURL command becomes under the name `name`.
pub open spec fn translation(c: CurlCommand, name: Seq<char>, req: Request) -> bool {
    &&& req.name@ == name
    &&& req.url@ == url_without_query(c.url@)
    &&& rows_view(req.params@) == enabled_rows(query_pairs_of(c.url@))
    &&& req.method == method_for(
        lookup(pairs_view(c.options@), KeyMatch::Exactly(seq!['X'])),
        c.data_raw@,
    )
    &&& rows_view(req.headers@) == enabled_rows(kept_headers(pairs_view(c.headers@)))
    &&& req.auth@ == auth_for(pairs_view(c.options@), pairs_view(c.headers@))
    &&& req.body matches ContentType::Raw(b) && b@ == c.data_raw@
}

fn key_matches_exec(k: &str, key: &str, authorization: bool) -> (r: bool)
    ensures
        authorization ==> r == is_authorization(k@),
        !authorization ==> r == (k@ == key@),
{
    if authorization {
        let name = "Authorization";
        proof {
            reveal_strlit("Authorization");
            assert(name@ =~= authorization_name());
        }
        same_text_ignore_ascii_case(k, name)
    } else {
        same_text(k, key)
    }
}

/// Index of the first pair whose key matches: `key` exactly, or `Authorization`
/// up to ASCII case where `authorization` is set.
pub fn find_key(pairs: &Vec<(String, String)>, key: &str, authorization: bool) -> (r: Option<usize>)
    ensures
        ({
            let m = if authorization {
                KeyMatch::Authorization
            } else {
                KeyMatch::Exactly(key@)
            };
            match r {
                Some(i) => i < pairs@.len() && lookup(pairs_view(pairs@), m) == Some(
                    pairs@[i as int].1@,
                ),
                None => lookup(pairs_view(pairs@), m) is None,
            }
        }),
{
    let ghost m = if authorization {
        KeyMatch::Authorization
    } else {
        KeyMatch::Exactly(key@)
    };
    let ghost pv = pairs_view(pairs@);
    let mut i: usize = 0;
    while i < pairs.len()
        invariant
            i <= pairs@.len(),
            pv == pairs_view(pairs@),
            m == (if authorization {
                KeyMatch::Authorization
            } else {
                KeyMatch::Exactly(key@)
            }),
            forall|j: int| 0 <= j < i ==> !key_matches(m, #[trigger] pv[j].0),
        decreases pairs@.len() - i,
    {
        if key_matches_exec(pairs[i].0.as_str(), key, authorization) {
            proof {
                assert(key_matches(m, pv[i as int].0));
                let k = choose|k: int|
                    0 <= k < pv.len() && key_matches(m, pv[k].0) && forall|j: int|
                        0 <= j < k ==> !key_matches(m, #[trigger] pv[j].0);
                if k < i {
                    assert(!key_matches(m, pv[k].0));
                } else if k > i {
                    assert(!key_matches(m, pv[i as int].0));
                }
            }
            return Some(i);
        }
        i = i + 1;
    }
    None
}

/// The headers as enabled rows, without `Authorization`.
pub fn header_rows(headers: &Vec<(String, String)>) -> (r: Vec<KeyValue>)
    ensures
        rows_view(r@) == enabled_rows(kept_headers(pairs_view(headers@))),
{
    let mut r: Vec<KeyValue> = Vec::new();
    let mut i: usize = 0;
    while i < headers.len()
        invariant
            i <= headers@.len(),
            rows_view(r@) == enabled_rows(kept_headers(pairs_view(headers@.subrange(0, i as int)))),
        decreases headers@.len() - i,
    {
        let ghost head = headers@.subrange(0, i as int);
        let ghost next = headers@.subrange(0, i + 1);
        proof {
            assert(next =~= head.push(headers@[i as int]));
            assert(pairs_view(next) =~= pairs_view(head).push(
                (headers@[i as int].0@, headers@[i as int].1@),
            ));
            assert(pairs_view(next).drop_last() =~= pairs_view(head));
        }
        if !key_matches_exec(headers[i].0.as_str(), "", true) {
            let k = headers[i].0.clone();
            let v = headers[i].1.clone();
            let ghost prev = r@;
            r.push(KeyValue { enabled: true, data: (k, v) });
            proof {
                assert(r@ =~= prev.push(r@.last()));
                assert(rows_view(r@) =~= rows_view(prev).push(r@.last()@));
                let kept = kept_headers(pairs_view(head));
                assert(enabled_rows(kept.push(pairs_view(next).last())) =~= enabled_rows(kept).push(
                    (true, headers@[i as int].0@, headers@[i as int].1@),
                ));
            }
        }
        i = i + 1;
    }
    assert(headers@.subrange(0, headers@.len() as int) =~= headers@);
    r
}

/// The method of an imported request, from its `-X` option and raw body.
pub fn get_http_method(curl: &CurlCommand) -> (r: Method)
    ensures
        r == method_for(lookup(pairs_view(curl.options@), KeyMatch::Exactly(seq!['X'])), curl.data_raw@),
{
    let x = "X";
    let put = "PUT";
    let delete = "DELETE";
    proof {
        reveal_strlit("X");
        reveal_strlit("PUT");
        reveal_strlit("DELETE");
        assert(x@ =~= seq!['X']);
        assert(put@ =~= put_name());
        assert(delete@ =~= delete_name());
    }
    if let Some(i) = find_key(&curl.options, x, false) {
        let v = curl.options[i].1.as_str();
        if same_text(v, put) {
            return Method::PUT;
        } else if same_text(v, delete) {
            return Method::DELETE;
        }
    }
    if curl.data_raw.as_str().unicode_len() > 0 {
        Method::POST
    } else {
        Method::GET
    }
}

/// The bearer token of an `Authorization` value, if it names one.
pub fn bearer_token(v: &str) -> (r: Option<String>)
    ensures
        match r {
            Some(t) => bearer_token_of(v@) == Some(t@),
            None => bearer_token_of(v@) is None,
        },
{
    let bearer = "Bearer";
    proof {
        reveal_strlit("Bearer");
        assert(bearer@ =~= bearer_name());
    }
    match two_words(v) {
        Some((w0, w1)) => if same_text(w0.as_str(), bearer) {
            Some(w1)
        } else {
            None
        },
        None => None,
    }
}

/// The auth of an imported request, from its `-u` option and `Authorization` header.
pub fn detect_auth(curl: &CurlCommand) -> (r: Auth)
    ensures
        r@ == auth_for(pairs_view(curl.options@), pairs_view(curl.headers@)),
{
    let u = "u";
    proof {
        reveal_strlit("u");
        assert(u@ =~= seq!['u']);
    }
    if let Some(i) = find_key(&curl.options, u, false) {
        if let Some((user, pass)) = split_once(curl.options[i].1.as_str(), ':') {
            return Auth::BasicAuth(user, pass);
        }
    }
    if let Some(i) = find_key(&curl.headers, "", true) {
        if let Some(t) = bearer_token(curl.headers[i].1.as_str()) {
            return Auth::BearerToken(t);
        }
    }
    Auth::NoAuth
}

/// Turns a cURL command into a request named `req_name`. Fails where the target
/// is not a URL.
pub fn parse_request(curl: &CurlCommand, req_name: String) -> (r: Result<Request, ImportError>)
    ensures
        r is Err <==> !url_parses(curl.url@),
        r matches Err(e) ==> e == ImportError::InvalidUrl,
        r matches Ok(req) ==> translation(*curl, req_name@, req),
{
    let pairs = match url_query_pairs(curl.url.as_str()) {
        Some(p) => p,
        None => return Err(ImportError::InvalidUrl),
    };
    let url = match url_base(curl.url.as_str()) {
        Some(u) => u,
        None => return Err(ImportError::InvalidUrl),
    };
    let mut request = Request::new();
    request.name = req_name;
    request.params = enabled_rows_from(pairs);
    request.url = url;
    request.method = get_http_method(curl);
    request.headers = header_rows(&curl.headers);
    request.auth = detect_auth(curl);
    request.body = ContentType::Raw(curl.data_raw.clone());
    Ok(request)
}

/// The name of an imported request: the stem of its source file's name.
pub fn extract_file_name(path: &str) -> (r: Result<String, String>)
    ensures
        match r {
            Ok(name) => file_stem_of(path@) == Some(name@),
            Err(e) => file_stem_of(path@) is None && e@ == "Filename not found"@,
        },
{
    match file_stem(path) {
        Some(name) => Ok(name),
        None => {
            let msg = "Filename not found";
            proof {
                reveal_strlit("Filename not found");
            }
            Err(msg.to_owned())
        },
    }
}

/// Imports the text of a cURL command read from the file at `path`: the command is
/// parsed, the request is named by the file's stem, and its URL is split. Nothing
/// is built where any step fails.
pub fn import_curl(text: &str, path: &str) -> (r: Result<Request, ImportError>)
    ensures
        (r == Err::<Request, ImportError>(ImportError::MalformedCurl)) <==> !curl_parses(text@),
        (r == Err::<Request, ImportError>(ImportError::NoFileName)) <==> (curl_parses(text@)
            && file_stem_of(path@) is None),
        (r == Err::<Request, ImportError>(ImportError::InvalidUrl)) <==> (curl_parses(text@)
            && file_stem_of(path@) is Some && !url_parses(curl_url_of(text@))),
        r matches Ok(req) ==> file_stem_of(path@) == Some(req.name@) && exists|c: CurlCommand|
            c.url@ == curl_url_of(text@) && c.data_raw@ == curl_data_raw_of(text@) && translation(
                c,
                req.name@,
                req,
            ),
{
    let curl = match parse_curl(text) {
        Some(c) => c,
        None => return Err(ImportError::MalformedCurl),
    };
    let name = match extract_file_name(path) {
        Ok(n) => n,
        Err(_) => return Err(ImportError::NoFileName),
    };
    parse_request(&curl, name)
}

} // verus!
