//! Sessions of users that logged in: the store of session tokens and the
//! check of the token that a request brings.

use vstd::prelude::*;
use vstd::string::*;

use crate::text::same_text;

verus! {

/// A user whose identity was checked.
#[derive(Clone, Copy, Debug, PartialEq, Eq, Structural)]
pub struct AuthenticatedUser(pub u128);

impl AuthenticatedUser {
    /// The identifier of the user.
    pub fn id(&self) -> (id: u128)
        ensures
            id == self.0,
    {
        self.0
    }
}

/// The login was refused: no user has these credentials.
#[derive(Clone, Copy, Debug, PartialEq, Eq, Structural)]
pub struct InvalidCredentials;

/// The request brought a session token that no session has.
#[derive(Clone, Copy, Debug, PartialEq, Eq, Structural)]
pub struct InvalidSessionToken;

/// The request brought no session token.
#[derive(Clone, Copy, Debug, PartialEq, Eq, Structural)]
pub struct NoSessionToken;

/// The two ways to log in.
#[derive(Clone, Debug, PartialEq)]
pub enum LoginInfo {
    Basic { username: String, password: String },
    Email { email: String, password: String },
}

/// Why a request is not let through.
#[derive(Clone, Copy, Debug, PartialEq, Eq, Structural)]
pub enum TokenRejection {
    Invalid(InvalidSessionToken),
    Missing(NoSessionToken),
}

/// The sessions that a list of stored tokens stands for.
pub open spec fn sessions_of(entries: Seq<(String, AuthenticatedUser)>) -> Map<
    Seq<char>,
    AuthenticatedUser,
>
    decreases entries.len(),
{
    if entries.len() == 0 {
        Map::empty()
    } else {
        sessions_of(entries.drop_last()).insert(entries.last().0@, entries.last().1)
    }
}

/// Whether no token occurs twice in `entries`.
pub open spec fn distinct_tokens(entries: Seq<(String, AuthenticatedUser)>) -> bool {
    forall|i: int, j: int| 0 <= i < j < entries.len() ==> entries[i].0@ != entries[j].0@
}

/// The user of the session with `token`, if there is such a session.
pub open spec fn user_of(sessions: Map<Seq<char>, AuthenticatedUser>, token: Seq<char>) -> Option<
    AuthenticatedUser,
> {
    if sessions.contains_key(token) {
        Some(sessions[token])
    } else {
        None
    }
}

/// A token has a session exactly if it stands in the list.
proof fn lemma_sessions_tokens(entries: Seq<(String, AuthenticatedUser)>, token: Seq<char>)
    ensures
        sessions_of(entries).contains_key(token) <==> exists|i: int|
            0 <= i < entries.len() && (#[trigger] entries[i]).0@ == token,
    decreases entries.len(),
{
    if entries.len() > 0 {
        let rest = entries.drop_last();
        lemma_sessions_tokens(rest, token);
        if sessions_of(entries).contains_key(token) {
            if entries.last().0@ == token {
                assert(entries[entries.len() - 1].0@ == token);
            } else {
                let i = choose|i: int| 0 <= i < rest.len() && (#[trigger] rest[i]).0@ == token;
                assert(entries[i].0@ == token);
            }
        }
        if exists|i: int| 0 <= i < entries.len() && (#[trigger] entries[i]).0@ == token {
            let i = choose|i: int| 0 <= i < entries.len() && (#[trigger] entries[i]).0@ == token;
            if i < rest.len() {
                assert(rest[i].0@ == token);
            }
        }
    }
}

/// Where no token stands twice, each entry of the list is the session of
/// its token.
proof fn lemma_sessions_user(entries: Seq<(String, AuthenticatedUser)>, at: int)
    requires
        distinct_tokens(entries),
        0 <= at < entries.len(),
    ensures
        user_of(sessions_of(entries), entries[at].0@) == Some(entries[at].1),
    decreases entries.len(),
{
    if at < entries.len() - 1 {
        let rest = entries.drop_last();
        assert(rest[at] == entries[at]);
        lemma_sessions_user(rest, at);
    }
}

/// Where no token stands twice, a new user in the place of an entry is the
/// new session of its token, and all other sessions stay.
proof fn lemma_sessions_replace(
    entries: Seq<(String, AuthenticatedUser)>,
    at: int,
    entry: (String, AuthenticatedUser),
)
    requires
        distinct_tokens(entries),
        0 <= at < entries.len(),
        entry.0@ == entries[at].0@,
    ensures
        sessions_of(entries.update(at, entry)) == sessions_of(entries).insert(entry.0@, entry.1),
        distinct_tokens(entries.update(at, entry)),
    decreases entries.len(),
{
    let changed = entries.update(at, entry);
    let rest = entries.drop_last();
    if at == entries.len() - 1 {
        assert(changed.drop_last() =~= rest);
        assert(sessions_of(changed) =~= sessions_of(entries).insert(entry.0@, entry.1));
    } else {
        assert(changed.drop_last() =~= rest.update(at, entry));
        assert(rest[at] == entries[at]);
        lemma_sessions_replace(rest, at, entry);
        assert(entries.last().0@ != entry.0@);
        assert(sessions_of(changed) =~= sessions_of(entries).insert(entry.0@, entry.1));
    }
}

/// The open sessions, by their token. No token stands twice. The sessions
/// are kept as a list and a token is found by comparing it with each entry:
/// of a hash map keyed by text the verifier knows nothing, as `vstd` models
/// hashing for integer keys only.
pub struct SessionStore {
    sessions: Vec<(String, AuthenticatedUser)>,
}

impl View for SessionStore {
    type V = Map<Seq<char>, AuthenticatedUser>;

    /// The user of each open session, by its token.
    closed spec fn view(&self) -> Map<Seq<char>, AuthenticatedUser> {
        sessions_of(self.sessions@)
    }
}

/// The place of `token` in `entries`, if it stands there.
fn position(entries: &Vec<(String, AuthenticatedUser)>, token: &str) -> (at: Option<usize>)
    ensures
        match at {
            Some(i) => i < entries@.len() && entries@[i as int].0@ == token@,
            None => forall|i: int| 0 <= i < entries@.len() ==> (#[trigger] entries@[i]).0@ != token@,
        },
{
    let mut i: usize = 0;
    while i < entries.len()
        invariant
            i <= entries@.len(),
            forall|j: int| 0 <= j < i ==> (#[trigger] entries@[j]).0@ != token@,
        decreases entries@.len() - i,
    {
        if same_text(entries[i].0.as_str(), token) {
            return Some(i);
        }
        i = i + 1;
    }
    None
}

impl SessionStore {
    #[verifier::type_invariant]
    spec fn well_formed(self) -> bool {
        distinct_tokens(self.sessions@)
    }

    /// A store without any session.
    pub fn new() -> (store: SessionStore)
        ensures
            store@ == Map::<Seq<char>, AuthenticatedUser>::empty(),
    {
        SessionStore { sessions: Vec::new() }
    }

    /// The number of open sessions.
    pub fn len(&self) -> (len: usize)
        ensures
            len == self@.len(),
    {
        proof {
            use_type_invariant(self);
            lemma_sessions_len(self.sessions@);
        }
        self.sessions.len()
    }

    /// Opens the session of `user` under `token`, in place of any earlier
    /// session under that token.
    pub fn store_session(&mut self, token: &str, user: AuthenticatedUser)
        ensures
            final(self)@ == old(self)@.insert(token@, user),
    {
        proof {
            use_type_invariant(&*self);
        }
        let mut entries: Vec<(String, AuthenticatedUser)> = Vec::new();
        std::mem::swap(&mut entries, &mut self.sessions);
        let entry = (String::from_str(token), user);
        match position(&entries, token) {
            Some(at) => {
                proof {
                    lemma_sessions_replace(entries@, at as int, entry);
                }
                entries.set(at, entry);
            },
            None => {
                entries.push(entry);
                assert(entries@.drop_last() =~= old(self).sessions@);
            },
        }
        self.sessions = entries;
    }

    /// The user of the session with `token`, if there is such a session.
    pub fn get_user_from_token(&self, token: &str) -> (user: Option<AuthenticatedUser>)
        ensures
            user == user_of(self@, token@),
    {
        proof {
            use_type_invariant(self);
            lemma_sessions_tokens(self.sessions@, token@);
        }
        match position(&self.sessions, token) {
            Some(at) => {
                proof {
                    lemma_sessions_user(self.sessions@, at as int);
                }
                Some(self.sessions[at].1)
            },
            None => None,
        }
    }
}

/// Where no token stands twice, there are as many sessions as entries.
proof fn lemma_sessions_len(entries: Seq<(String, AuthenticatedUser)>)
    requires
        distinct_tokens(entries),
    ensures
        sessions_of(entries).dom().finite(),
        sessions_of(entries).len() == entries.len(),
    decreases entries.len(),
{
    if entries.len() > 0 {
        let rest = entries.drop_last();
        lemma_sessions_len(rest);
        lemma_sessions_tokens(rest, entries.last().0@);
        assert(!sessions_of(rest).contains_key(entries.last().0@)) by {
            if sessions_of(rest).contains_key(entries.last().0@) {
                let i = choose|i: int|
                    0 <= i < rest.len() && (#[trigger] rest[i]).0@ == entries.last().0@;
                assert(entries[i].0@ == entries[entries.len() - 1].0@);
            }
        }
    }
}

/// Lets a request through where it brings the token of an open session, as
/// the user of that session. A request without a token, and one with a
/// token that no session has, are turned away, each with its own reason.
pub fn authenticate(store: &SessionStore, session_token: Option<&str>) -> (user: Result<
    AuthenticatedUser,
    TokenRejection,
>)
    ensures
        user == (match session_token {
            Some(token) => match user_of(store@, token@) {
                Some(user) => Ok::<AuthenticatedUser, TokenRejection>(user),
                None => Err(TokenRejection::Invalid(InvalidSessionToken)),
            },
            None => Err(TokenRejection::Missing(NoSessionToken)),
        }),
{
    match session_token {
        Some(token) => match store.get_user_from_token(token) {
            Some(user) => Ok(user),
            None => Err(TokenRejection::Invalid(InvalidSessionToken)),
        },
        None => Err(TokenRejection::Missing(NoSessionToken)),
    }
}

/// The cookie that hands `token` to the client: it is kept from scripts
/// and holds for the whole site.
pub fn session_cookie(token: &str) -> (cookie: String)
    ensures
        cookie@ == "session-token="@ + token@ + "; HttpOnly; Path=/"@,
{
    let mut cookie = String::from_str("session-token=");
    cookie.append(token);
    cookie.append("; HttpOnly; Path=/");
    cookie
}

/// A session that was stored is found under its token, and storing it
/// leaves the sessions under all other tokens as they were.
pub proof fn lemma_stored_session_is_found(
    sessions: Map<Seq<char>, AuthenticatedUser>,
    token: Seq<char>,
    user: AuthenticatedUser,
    other: Seq<char>,
)
    requires
        other != token,
    ensures
        user_of(sessions.insert(token, user), token) == Some(user),
        user_of(sessions.insert(token, user), other) == user_of(sessions, other),
{
}

} // verus!
