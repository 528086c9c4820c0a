//! The Twitch side of a resolution: the credential and the broadcaster ids.
//!
//! The client keeps one credential, which it uses until the time recorded
//! as its expiry, and the id of every user name that it resolved. It makes
//! no call itself: it names the call that is needed and is handed the
//! answer.

use crate::failure::{Failure, FailureView};
use vstd::hash_map::StringHashMap;
use vstd::prelude::*;
use vstd::string::StringExecFns;

verus! {

/// The address that issues credentials.
pub const TOKEN_URL: &'static str = "https://id.twitch.tv/oauth2/token";

/// The address that describes users.
pub const USERS_URL: &'static str = "https://api.twitch.tv/helix/users";

/// The grant that a credential is asked for under.
pub const GRANT_TYPE: &'static str = "client_credentials";

/// What the credential service hands out.
#[derive(Debug)]
pub struct TwitchAuthDataResponse {
    pub access_token: String,
    /// The number of seconds for which the token is good.
    pub expires_in: u64,
    pub token_type: String,
}

/// A user as the Twitch API describes one.
#[derive(Debug)]
pub struct TwitchUserData {
    pub id: String,
    pub login: String,
    pub display_name: String,
}

/// The ids of a list of users, in order.
pub open spec fn user_ids(users: Seq<TwitchUserData>) -> Seq<Seq<char>> {
    users.map_values(|user: TwitchUserData| user.id@)
}

/// A credential: the token and the time from which it is no longer used.
pub struct TokenView {
    pub value: Seq<char>,
    pub expires_at: u64,
}

/// What the client holds, to the specifications.
pub struct ClientView {
    pub client_id: Seq<char>,
    pub client_secret: Seq<char>,
    /// The credential, once one was issued.
    pub auth_token: Option<TokenView>,
    /// The id of each user name that was resolved.
    pub ids: Map<Seq<char>, Seq<char>>,
}

impl ClientView {
    /// The token that can be used at the time `now`: the one held, if one is
    /// held and `now` is before its expiry.
    pub open spec fn usable_token(self, now: u64) -> Option<Seq<char>> {
        match self.auth_token {
            Some(token) if now < token.expires_at => Some(token.value),
            _ => None,
        }
    }
}

/// What follows in the resolution of a user name.
#[derive(Debug)]
pub enum IdStep {
    /// The resolution has ended with this result.
    Done(Result<String, Failure>),
    /// A credential has to be issued and handed to `update_auth_token`.
    Issue,
    /// The user has to be looked up with this token, and the answer handed
    /// to `store_id`.
    Lookup(String),
}

/// What a step is to the specifications.
pub enum IdStepView {
    Done(Result<Seq<char>, FailureView>),
    Issue,
    Lookup(Seq<char>),
}

impl View for IdStep {
    type V = IdStepView;

    open spec fn view(&self) -> IdStepView {
        match self {
            IdStep::Done(Ok(id)) => IdStepView::Done(Ok(id@)),
            IdStep::Done(Err(failure)) => IdStepView::Done(Err(failure@)),
            IdStep::Issue => IdStepView::Issue,
            IdStep::Lookup(token) => IdStepView::Lookup(token@),
        }
    }
}

/// The start of the resolution of `username` at the time `now`.
///
/// A name that was resolved before is answered at once. Otherwise the user
/// is looked up with the credential held, unless none is held or `now` is
/// not before its expiry: then a credential is issued first.
pub open spec fn id_step(c: ClientView, username: Seq<char>, now: u64) -> IdStepView {
    if c.ids.contains_key(username) {
        IdStepView::Done(Ok(c.ids[username]))
    } else {
        match c.usable_token(now) {
            Some(token) => IdStepView::Lookup(token),
            None => IdStepView::Issue,
        }
    }
}

/// The continuation when the credential service has answered with `issued`,
/// the token and the seconds for which it is good, at the time `now`.
///
/// The new credential replaces the old one as a whole; it expires the given
/// number of seconds after `now`. A failure ends the resolution and leaves
/// the credential as it was.
pub open spec fn token_issued(
    c: ClientView,
    issued: Result<(Seq<char>, u64), Seq<char>>,
    now: u64,
) -> (ClientView, IdStepView) {
    match issued {
        Err(report) => (c, IdStepView::Done(Err(FailureView::Upstream(report)))),
        Ok((value, expires_in)) => (
            ClientView {
                auth_token: Some(TokenView { value, expires_at: (now + expires_in) as u64 }),
                ..c
            },
            IdStepView::Lookup(value),
        ),
    }
}

/// The end of the resolution of `username` when the lookup has answered
/// with `found`, the ids of the users of that name.
///
/// The id of the first user is kept under the name and answered. A name that
/// was resolved before keeps its id, and that id is the answer. A failed or
/// empty lookup leaves the client as it was.
pub open spec fn id_found(
    c: ClientView,
    username: Seq<char>,
    found: Result<Seq<Seq<char>>, Seq<char>>,
) -> (ClientView, Result<Seq<char>, FailureView>) {
    if c.ids.contains_key(username) {
        (c, Ok(c.ids[username]))
    } else {
        match found {
            Err(report) => (c, Err(FailureView::Upstream(report))),
            Ok(ids) => if ids.len() > 0 {
                (ClientView { ids: c.ids.insert(username, ids[0]), ..c }, Ok(ids[0]))
            } else {
                (c, Err(FailureView::Upstream("Empty user data"@)))
            },
        }
    }
}

/// The value of the `Authorization` header that carries `token`.
pub open spec fn bearer(token: Seq<char>) -> Seq<char> {
    "Bearer "@ + token
}

/// The value of the `Authorization` header that carries `token`.
pub fn authorization(token: &str) -> (value: String)
    ensures
        value@ == bearer(token@),
{
    String::from_str("Bearer ").concat(token)
}

/// The client of the Twitch API.
pub struct TwitchClient {
    client_id: String,
    client_secret: String,
    auth_token: Option<(String, u64)>,
    twitch_username_id_map: StringHashMap<String>,
}

impl View for TwitchClient {
    type V = ClientView;

    closed spec fn view(&self) -> ClientView {
        ClientView {
            client_id: self.client_id@,
            client_secret: self.client_secret@,
            auth_token: match self.auth_token {
                Some((value, expires_at)) => Some(TokenView { value: value@, expires_at }),
                None => None,
            },
            ids: self.twitch_username_id_map@.map_values(|id: String| id@),
        }
    }
}

impl TwitchClient {
    /// A client that holds no credential and has resolved no name.
    pub fn new(client_id: String, client_secret: String) -> (client: Self)
        ensures
            client@ == (ClientView {
                client_id: client_id@,
                client_secret: client_secret@,
                auth_token: None,
                ids: Map::empty(),
            }),
    {
        let client = TwitchClient {
            client_id,
            client_secret,
            auth_token: None,
            twitch_username_id_map: StringHashMap::new(),
        };
        assert(client@.ids =~= Map::<Seq<char>, Seq<char>>::empty());
        client
    }

    /// The identifier that the client presents.
    pub fn client_id(&self) -> (id: &String)
        ensures
            id@ == self@.client_id,
    {
        &self.client_id
    }

    /// The secret that the client presents when it asks for a credential.
    pub fn client_secret(&self) -> (secret: &String)
        ensures
            secret@ == self@.client_secret,
    {
        &self.client_secret
    }

    /// The token held, if one is held and `now` is before its expiry.
    pub fn get_auth_token(&self, now: u64) -> (token: Option<String>)
        ensures
            match token {
                Some(value) => self@.usable_token(now) == Some(value@),
                None => self@.usable_token(now) is None,
            },
            token is Some <==> (self@.auth_token matches Some(held) && now < held.expires_at),
    {
        match &self.auth_token {
            Some((value, expires_at)) => {
                if now < *expires_at {
                    Some(value.clone())
                } else {
                    None
                }
            },
            None => None,
        }
    }

    /// Starts the resolution of `username` at the time `now`. The client
    /// does not change.
    pub fn get_id_for_username(&self, username: &str, now: u64) -> (step: IdStep)
        ensures
            step@ == id_step(self@, username@, now),
            step@ matches IdStepView::Lookup(token) ==> self@.usable_token(now) == Some(token),
            step@ is Issue <==> !self@.ids.contains_key(username@) && self@.usable_token(now)
                is None,
    {
        match self.twitch_username_id_map.get(username) {
            Some(id) => {
                return IdStep::Done(Ok(id.clone()));
            },
            None => {},
        }
        match self.get_auth_token(now) {
            Some(token) => IdStep::Lookup(token),
            None => IdStep::Issue,
        }
    }

    /// Goes on when the credential service has answered: `issued` holds the
    /// new credential or the report of the failure, `now` the time of the
    /// answer. The expiry, `now` and the seconds for which the token is
    /// good, has to fit.
    pub fn update_auth_token(&mut self, issued: Result<TwitchAuthDataResponse, String>, now: u64)
        -> (step: IdStep)
        requires
            issued matches Ok(data) ==> now + data.expires_in <= u64::MAX,
        ensures
            (final(self)@, step@) == token_issued(
                old(self)@,
                match issued {
                    Ok(data) => Ok((data.access_token@, data.expires_in)),
                    Err(report) => Err(report@),
                },
                now,
            ),
            issued matches Ok(data) ==> step@ == IdStepView::Lookup(data.access_token@)
                && final(self)@.auth_token == Some(
                TokenView { value: data.access_token@, expires_at: (now + data.expires_in) as u64 },
            ) && now + data.expires_in == final(self)@.auth_token->0.expires_at,
            issued matches Ok(data) ==> (data.expires_in > 0 ==> final(self)@.usable_token(now)
                == Some(data.access_token@)),
            issued is Err ==> final(self)@ == old(self)@ && step@ is Done,
    {
        match issued {
            Err(report) => IdStep::Done(Err(Failure::Upstream(report))),
            Ok(data) => {
                let expires_at: u64 = now + data.expires_in;
                self.auth_token = Some((data.access_token.clone(), expires_at));
                IdStep::Lookup(data.access_token)
            },
        }
    }

    /// Ends the resolution of `username` when the lookup has answered:
    /// `found` holds the users of that name or the report of the failure.
    pub fn store_id(&mut self, username: &str, found: Result<Vec<TwitchUserData>, String>) -> (r:
        Result<String, Failure>)
        ensures
            ({
                let (after, answer) = id_found(
                    old(self)@,
                    username@,
                    match found {
                        Ok(users) => Ok(user_ids(users@)),
                        Err(report) => Err(report@),
                    },
                );
                &&& final(self)@ == after
                &&& match r {
                    Ok(id) => answer == Ok::<Seq<char>, FailureView>(id@),
                    Err(failure) => answer == Err::<Seq<char>, FailureView>(failure@),
                }
            }),
    {
        match self.twitch_username_id_map.get(username) {
            Some(id) => {
                return Ok(id.clone());
            },
            None => {},
        }
        let users = match found {
            Ok(users) => users,
            Err(report) => {
                return Err(Failure::Upstream(report));
            },
        };
        if users.len() == 0 {
            return Err(Failure::Upstream("Empty user data".to_owned()));
        }
        let id = users[0].id.clone();
        self.twitch_username_id_map.insert(username.to_owned(), id.clone());
        assert(self@.ids =~= old(self)@.ids.insert(username@, id@));
        Ok(id)
    }
}

/// How the resolution of a user name ended.
pub struct IdResolution {
    /// What the client holds afterwards.
    pub state: ClientView,
    /// What the requester is told.
    pub result: Result<Seq<char>, FailureView>,
    /// How many credentials were issued.
    pub issues: nat,
    /// How many times the user was looked up.
    pub lookups: nat,
    /// The token that the lookup carried, if there was a lookup.
    pub token: Option<Seq<char>>,
}

/// A whole resolution of `username`, begun at the time `now`: the steps are
/// taken one after another; `issued` answers the call for a credential, at
/// the time `issued_at`, and `found` answers the lookup, where the steps ask
/// for them. `None` stands for a resolution that would ask for a second
/// credential.
pub open spec fn resolve_id(
    c: ClientView,
    username: Seq<char>,
    now: u64,
    issued: Result<(Seq<char>, u64), Seq<char>>,
    issued_at: u64,
    found: Result<Seq<Seq<char>>, Seq<char>>,
) -> Option<IdResolution> {
    match id_step(c, username, now) {
        IdStepView::Done(result) => Some(
            IdResolution { state: c, result, issues: 0, lookups: 0, token: None },
        ),
        IdStepView::Lookup(token) => {
            let (after, result) = id_found(c, username, found);
            Some(IdResolution { state: after, result, issues: 0, lookups: 1, token: Some(token) })
        },
        IdStepView::Issue => {
            let (after, step) = token_issued(c, issued, issued_at);
            match step {
                IdStepView::Done(result) => Some(
                    IdResolution { state: after, result, issues: 1, lookups: 0, token: None },
                ),
                IdStepView::Lookup(token) => {
                    let (last, result) = id_found(after, username, found);
                    Some(
                        IdResolution {
                            state: last,
                            result,
                            issues: 1,
                            lookups: 1,
                            token: Some(token),
                        },
                    )
                },
                IdStepView::Issue => None,
            }
        },
    }
}

/// A credential is not used from its expiry on. A resolution that needs a
/// lookup while no credential is held, or at a time that is not before the
/// expiry of the one held, issues exactly one credential and looks the user
/// up with the new token; if the issuance fails there is no lookup. A
/// resolution that finds a credential before its expiry issues none and uses
/// that one.
pub proof fn lemma_expired_token_is_reissued(
    c: ClientView,
    username: Seq<char>,
    now: u64,
    issued: Result<(Seq<char>, u64), Seq<char>>,
    issued_at: u64,
    found: Result<Seq<Seq<char>>, Seq<char>>,
)
    requires
        !c.ids.contains_key(username),
    ensures
        resolve_id(c, username, now, issued, issued_at, found) is Some,
        ({
            let ended = resolve_id(c, username, now, issued, issued_at, found)->0;
            let expired = c.auth_token matches Some(token) ==> now >= token.expires_at;
            &&& expired ==> ended.issues == 1
            &&& expired ==> match issued {
                Ok((value, _)) => ended.lookups == 1 && ended.token == Some(value),
                Err(report) => ended.lookups == 0 && ended.result == Err::<
                    Seq<char>,
                    FailureView,
                >(FailureView::Upstream(report)) && ended.state == c,
            }
            &&& !expired ==> ended.issues == 0 && ended.lookups == 1 && ended.token == Some(
                c.auth_token->0.value,
            ) && ended.state.auth_token == c.auth_token
        }),
{
}

/// A credential that was issued is put to use. Where the expiry fits, the
/// new credential expires the given number of seconds after it was issued;
/// if that number is not zero, it can be used at the time of issue and up to
/// its expiry, and not from the expiry on. The old credential is gone, and
/// the lookup that follows carries the new token as its bearer.
pub proof fn lemma_issued_token_is_usable(
    c: ClientView,
    value: Seq<char>,
    expires_in: u64,
    now: u64,
    later: u64,
)
    requires
        now + expires_in <= u64::MAX,
        expires_in > 0,
    ensures
        ({
            let (after, step) = token_issued(c, Ok((value, expires_in)), now);
            &&& step == IdStepView::Lookup(value)
            &&& bearer(step->Lookup_0) == "Bearer "@ + value
            &&& after.auth_token == Some(TokenView { value, expires_at: (now + expires_in) as u64 })
            &&& after.auth_token->0.expires_at == now + expires_in
            &&& after.usable_token(now) == Some(value)
            &&& now <= later < now + expires_in ==> after.usable_token(later) == Some(value)
            &&& later >= now + expires_in ==> after.usable_token(later) is None
        }),
{
}

/// A name is resolved once. A name that has an id is answered without any
/// call, and whatever else is resolved, it keeps that id.
pub proof fn lemma_id_is_resolved_once(
    c: ClientView,
    username: Seq<char>,
    other: Seq<char>,
    now: u64,
    issued: Result<(Seq<char>, u64), Seq<char>>,
    issued_at: u64,
    found: Result<Seq<Seq<char>>, Seq<char>>,
)
    requires
        c.ids.contains_key(username),
    ensures
        resolve_id(c, username, now, issued, issued_at, found) == Some(
            IdResolution {
                state: c,
                result: Ok(c.ids[username]),
                issues: 0,
                lookups: 0,
                token: None,
            },
        ),
        resolve_id(c, other, now, issued, issued_at, found) is Some,
        ({
            let ended = resolve_id(c, other, now, issued, issued_at, found)->0;
            ended.state.ids.contains_key(username) && ended.state.ids[username] == c.ids[username]
        }),
{
}

} // verus!
