use vstd::prelude::*;

verus! {

/// How a request authenticates itself.
#[derive(Clone, Debug)]
pub enum Auth {
    NoAuth,
    BasicAuth(String, String),
    BearerToken(String),
}

/// The kind of an auth value, without its credentials.
#[derive(Clone, Copy, Debug, PartialEq, Eq, Structural)]
pub enum AuthKind {
    NoAuth,
    BasicAuth,
    BearerToken,
}

impl Auth {
    pub open spec fn kind(&self) -> AuthKind {
        match self {
            Auth::NoAuth => AuthKind::NoAuth,
            Auth::BasicAuth(_, _) => AuthKind::BasicAuth,
            Auth::BearerToken(_) => AuthKind::BearerToken,
        }
    }
}

/// Mathematical model of an auth value: its kind and credentials as character sequences.
pub enum AuthModel {
    NoAuth,
    BasicAuth(Seq<char>, Seq<char>),
    BearerToken(Seq<char>),
}

impl View for Auth {
    type V = AuthModel;

    open spec fn view(&self) -> AuthModel {
        match self {
            Auth::NoAuth => AuthModel::NoAuth,
            Auth::BasicAuth(u, p) => AuthModel::BasicAuth(u@, p@),
            Auth::BearerToken(t) => AuthModel::BearerToken(t@),
        }
    }
}

/// The kind that follows `k` in the cycle NoAuth -> BasicAuth -> BearerToken -> NoAuth.
pub open spec fn next_kind(k: AuthKind) -> AuthKind {
    match k {
        AuthKind::NoAuth => AuthKind::BasicAuth,
        AuthKind::BasicAuth => AuthKind::BearerToken,
        AuthKind::BearerToken => AuthKind::NoAuth,
    }
}

/// The value that cycling produces: the next kind, with empty credentials.
pub open spec fn next_auth_spec(a: AuthModel) -> AuthModel {
    match a {
        AuthModel::NoAuth => AuthModel::BasicAuth(Seq::empty(), Seq::empty()),
        AuthModel::BasicAuth(_, _) => AuthModel::BearerToken(Seq::empty()),
        AuthModel::BearerToken(_) => AuthModel::NoAuth,
    }
}

pub open spec fn model_kind(a: AuthModel) -> AuthKind {
    match a {
        AuthModel::NoAuth => AuthKind::NoAuth,
        AuthModel::BasicAuth(_, _) => AuthKind::BasicAuth,
        AuthModel::BearerToken(_) => AuthKind::BearerToken,
    }
}

pub open spec fn patch_username_spec(a: AuthModel, text: Seq<char>) -> AuthModel {
    match a {
        AuthModel::BasicAuth(_, p) => AuthModel::BasicAuth(text, p),
        _ => a,
    }
}

pub open spec fn patch_password_spec(a: AuthModel, text: Seq<char>) -> AuthModel {
    match a {
        AuthModel::BasicAuth(u, _) => AuthModel::BasicAuth(u, text),
        _ => a,
    }
}

pub open spec fn patch_bearer_token_spec(a: AuthModel, text: Seq<char>) -> AuthModel {
    match a {
        AuthModel::BearerToken(_) => AuthModel::BearerToken(text),
        _ => a,
    }
}

/// Moves to the next auth kind in the cycle, dropping any credentials held.
pub fn next_auth(auth: &Auth) -> (r: Auth)
    ensures
        r@ == next_auth_spec(auth@),
        r.kind() == next_kind(auth.kind()),
{
    match auth {
        Auth::NoAuth => Auth::BasicAuth(String::new(), String::new()),
        Auth::BasicAuth(_, _) => Auth::BearerToken(String::new()),
        Auth::BearerToken(_) => Auth::NoAuth,
    }
}

/// Replaces the username of a basic auth; any other kind comes back unchanged.
pub fn patch_username(auth: &Auth, text: String) -> (r: Auth)
    ensures
        r@ == patch_username_spec(auth@, text@),
{
    match auth {
        Auth::BasicAuth(_, password) => Auth::BasicAuth(text, password.clone()),
        other => copy_auth(other),
    }
}

/// Replaces the password of a basic auth; any other kind comes back unchanged.
pub fn patch_password(auth: &Auth, text: String) -> (r: Auth)
    ensures
        r@ == patch_password_spec(auth@, text@),
{
    match auth {
        Auth::BasicAuth(username, _) => Auth::BasicAuth(username.clone(), text),
        other => copy_auth(other),
    }
}

/// Replaces the token of a bearer auth; any other kind comes back unchanged.
pub fn patch_bearer_token(auth: &Auth, text: String) -> (r: Auth)
    ensures
        r@ == patch_bearer_token_spec(auth@, text@),
{
    match auth {
        Auth::BearerToken(_) => Auth::BearerToken(text),
        other => copy_auth(other),
    }
}

/// A copy of an auth value.
pub fn copy_auth(auth: &Auth) -> (r: Auth)
    ensures
        r@ == auth@,
{
    match auth {
        Auth::NoAuth => Auth::NoAuth,
        Auth::BasicAuth(u, p) => Auth::BasicAuth(u.clone(), p.clone()),
        Auth::BearerToken(t) => Auth::BearerToken(t.clone()),
    }
}

/// Cycling visits three distinct kinds and returns to the start after three steps,
/// and distinct kinds have distinct successors.
pub proof fn lemma_next_is_three_cycle(a: AuthModel, b: AuthModel)
    ensures
        model_kind(next_auth_spec(next_auth_spec(next_auth_spec(a)))) == model_kind(a),
        model_kind(next_auth_spec(a)) != model_kind(a),
        model_kind(next_auth_spec(next_auth_spec(a))) != model_kind(a),
        model_kind(next_auth_spec(a)) == next_kind(model_kind(a)),
        model_kind(a) != model_kind(b) ==> model_kind(next_auth_spec(a)) != model_kind(
            next_auth_spec(b),
        ),
{
}

/// Every kind is reached by cycling from some kind.
pub proof fn lemma_next_kind_onto(k: AuthKind)
    ensures
        next_kind(next_kind(next_kind(k))) == k,
        exists|j: AuthKind| next_kind(j) == k,
{
    let j = next_kind(next_kind(k));
    assert(next_kind(j) == k);
}

/// A patch aimed at another kind returns its input unchanged.
pub proof fn lemma_patch_other_kind_is_noop(a: AuthModel, text: Seq<char>)
    ensures
        model_kind(a) != AuthKind::BasicAuth ==> patch_username_spec(a, text) == a,
        model_kind(a) != AuthKind::BasicAuth ==> patch_password_spec(a, text) == a,
        model_kind(a) != AuthKind::BearerToken ==> patch_bearer_token_spec(a, text) == a,
{
}

} // verus!
