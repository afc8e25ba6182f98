//! The start of Discord sign-in: the authorisation URL the user is sent to,
//! and the state token that the callback must present.
use vstd::prelude::*;
use crate::reply::{is_internal_server_error, throw_internal_server_error, Reply, ReplyBody};
use crate::text::{uuid_hyphenated, uuid_text};
use crate::types::Timestamp;

verus! {

/// `url::Url`, opaque.
#[verifier::external_type_specification]
#[verifier::external_body]
pub struct ExUrl(url::Url);

/// `url::ParseError`, opaque.
#[verifier::external_type_specification]
#[verifier::external_body]
pub struct ExUrlParseError(url::ParseError);

/// The serialisation of the URL `url::Url::parse` makes of `input`, or `None`
/// when it does not parse.
pub uninterp spec fn url_parse(input: Seq<char>) -> Option<Seq<char>>;

/// The serialisation of the URL `url` after
/// `query_pairs_mut().append_pair(name, value)`: the pair form-urlencoded and
/// appended to the query.
pub uninterp spec fn url_append_pair(url: Seq<char>, name: Seq<char>, value: Seq<char>) -> Seq<
    char,
>;

/// A parsed URL; its view is its serialisation.
pub struct Link {
    url: url::Url,
    text: Ghost<Seq<char>>,
}

impl View for Link {
    type V = Seq<char>;

    closed spec fn view(&self) -> Seq<char> {
        self.text@
    }
}

/// `url::Url::parse(input)`: succeeds exactly when the name says the input
/// parses, and the link's view is the serialisation the name gives.
#[verifier::external_body]
fn parse_link(input: &str) -> (r: Result<Link, url::ParseError>)
    ensures
        (r is Ok) == (url_parse(input@) is Some),
        r matches Ok(l) ==> l@ == url_parse(input@)->0,
{
    match url::Url::parse(input) {
        Ok(url) => {
            let text = Ghost(url_parse(input@)->0);
            Ok(Link { url, text })
        },
        Err(e) => Err(e),
    }
}

/// `url.query_pairs_mut().append_pair(name, value)`: the URL afterwards is
/// the one the name gives.
#[verifier::external_body]
fn append_query_pair(link: &mut Link, name: &str, value: &str)
    ensures
        final(link)@ == url_append_pair(old(link)@, name@, value@),
{
    link.url.query_pairs_mut().append_pair(name, value);
    link.text = Ghost(url_append_pair(link.text@, name@, value@));
}

/// `url::Url::as_str`, owned: the URL's serialisation.
#[verifier::external_body]
fn link_text(link: &Link) -> (r: String)
    ensures
        r@ == link@,
{
    link.url.as_str().to_owned()
}

/// Discord's authorisation endpoint.
pub open spec fn authorize_endpoint() -> Seq<char> {
    "https://discord.com/oauth2/authorize"@
}

/// The scopes the service asks Discord for.
pub open spec fn requested_scope() -> Seq<char> {
    "email identify openid connections"@
}

/// The authorisation URL for a client, its redirect URI and a state token:
/// the endpoint with `client_id`, `response_type=code`, `redirect_uri`,
/// `scope` and `state` appended in that order.
pub open spec fn discord_authorize_url(client_id: Seq<char>, redirect_uri: Seq<char>, state: u128) -> Option<
    Seq<char>,
> {
    match url_parse(authorize_endpoint()) {
        None => None,
        Some(base) => {
            let u1 = url_append_pair(base, "client_id"@, client_id);
            let u2 = url_append_pair(u1, "response_type"@, "code"@);
            let u3 = url_append_pair(u2, "redirect_uri"@, redirect_uri);
            let u4 = url_append_pair(u3, "scope"@, requested_scope());
            Some(url_append_pair(u4, "state"@, uuid_hyphenated(state)))
        },
    }
}

/// A sign-in that can go ahead once its state token is stored.
pub struct AuthorizeRequest {
    /// Where the user is sent.
    pub url: String,
    /// The state token to store.
    pub state: u128,
    /// When the state token was issued.
    pub created_at: Timestamp,
}

/// Starts a sign-in with state token `state` issued at `now`: the
/// authorisation URL and the state row to store, or the generic failure when
/// the endpoint does not parse.
pub fn authorize_request(client_id: &str, redirect_uri: &str, state: u128, now: Timestamp) -> (r:
    Result<AuthorizeRequest, Reply>)
    ensures
        match discord_authorize_url(client_id@, redirect_uri@, state) {
            Some(u) => r matches Ok(req) && req.url@ == u && req.state == state && req.created_at
                == now,
            None => r matches Err(e) && is_internal_server_error(e),
        },
{
    let mut link = match parse_link("https://discord.com/oauth2/authorize") {
        Ok(l) => l,
        Err(_) => return Err(throw_internal_server_error()),
    };
    append_query_pair(&mut link, "client_id", client_id);
    append_query_pair(&mut link, "response_type", "code");
    append_query_pair(&mut link, "redirect_uri", redirect_uri);
    append_query_pair(&mut link, "scope", "email identify openid connections");
    let state_text = uuid_text(state);
    append_query_pair(&mut link, "state", state_text.as_str());
    Ok(AuthorizeRequest { url: link_text(&link), state, created_at: now })
}

/// `r` sends the client to `url` with `303 See Other`.
pub open spec fn is_redirect(r: Reply, url: Seq<char>) -> bool {
    &&& r.status == 303
    &&& r.location matches Some(l) && l@ == url
    &&& r.set_cookie is None
    &&& r.body is Empty
}

/// The answer once the state token has been stored (`saved`): the redirect
/// to the authorisation URL, or the generic failure.
pub fn authorize_reply(req: AuthorizeRequest, saved: bool) -> (r: Reply)
    ensures
        saved ==> is_redirect(r, req.url@),
        !saved ==> is_internal_server_error(r),
{
    if saved {
        Reply { status: 303, body: ReplyBody::Empty, location: Some(req.url), set_cookie: None }
    } else {
        throw_internal_server_error()
    }
}

/// The authorisation URL carries the very state token that is stored: the
/// last pair appended to it is `state` with the hyphenated text of that
/// token, so Discord's redirect back names the stored row.
pub proof fn authorization_url_carries_the_stored_state(
    client_id: Seq<char>,
    redirect_uri: Seq<char>,
    state: u128,
)
    ensures
        discord_authorize_url(client_id, redirect_uri, state) matches Some(u) ==> exists|
            before: Seq<char>,
        | u == url_append_pair(before, "state"@, uuid_hyphenated(state)),
{
    if let Some(base) = url_parse(authorize_endpoint()) {
        let u1 = url_append_pair(base, "client_id"@, client_id);
        let u2 = url_append_pair(u1, "response_type"@, "code"@);
        let u3 = url_append_pair(u2, "redirect_uri"@, redirect_uri);
        let u4 = url_append_pair(u3, "scope"@, requested_scope());
        assert(discord_authorize_url(client_id, redirect_uri, state) == Some(
            url_append_pair(u4, "state"@, uuid_hyphenated(state)),
        ));
    }
}

} // verus!
