//! Decisions of the local bridge that lets a browser extension look up
//! entries and secrets: routing, token checks, host matching and the reply
//! to each request. The transport (an HTTP server on 127.0.0.1) turns a
//! request into the values taken here and the reply into JSON.
use crate::models::{Entry, ExtensionConfig};
use crate::primitives::{form_pairs, form_pairs_of, lowercase_of, to_lowercase, url_host, url_host_of};
use crate::state::{first_with_id, has_id, position_of, AppState, VaultState};
use crate::text::{
    blank, ends_with, is_blank, occurs_in, same_text, split_once_char, starts_with, strip_prefix,
    text_contains, text_ends_with, trim, trimmed,
};
use vstd::prelude::*;

verus! {

/// "://", which separates a URL's scheme from the rest.
pub open spec fn scheme_sep() -> Seq<char> {
    seq![':', '/', '/']
}

/// "https://", put in front of a bare host.
pub open spec fn https_prefix() -> Seq<char> {
    seq!['h', 't', 't', 'p', 's', ':', '/', '/']
}

/// "www.", ignored at the start of a host.
pub open spec fn www_prefix() -> Seq<char> {
    seq!['w', 'w', 'w', '.']
}

/// "Bearer ", the scheme of an `Authorization` header that carries a token.
pub open spec fn bearer_prefix() -> Seq<char> {
    seq!['B', 'e', 'a', 'r', 'e', 'r', ' ']
}

/// The lower-cased host of a URL or of a bare host name, after trimming; a
/// text without "://" is read as an https URL.
pub open spec fn normalized_host(raw: Seq<char>) -> Option<Seq<char>> {
    let t = trimmed(raw);
    if t.len() == 0 {
        None
    } else {
        let candidate = if occurs_in(t, scheme_sep()) {
            t
        } else {
            https_prefix() + t
        };
        match url_host_of(candidate) {
            Some(h) => Some(lowercase_of(h)),
            None => None,
        }
    }
}

/// A host without a leading "www.".
pub open spec fn strip_www(h: Seq<char>) -> Seq<char> {
    if starts_with(h, www_prefix()) {
        h.skip(4)
    } else {
        h
    }
}

/// Whether an entry's host serves a target host: the same host, or a
/// subdomain of it, "www." aside.
pub open spec fn hosts_match(entry: Seq<char>, target: Seq<char>) -> bool {
    let e = strip_www(entry);
    let t = strip_www(target);
    e == t || ends_with(t, seq!['.'] + e)
}

/// The host of a URL or bare host name, lower-cased.
pub fn normalize_host(raw: &str) -> (r: Option<String>)
    ensures
        match r {
            Some(h) => normalized_host(raw@) == Some(h@),
            None => normalized_host(raw@) is None,
        },
{
    let t = trim(raw);
    if t.is_empty() {
        return None;
    }
    proof {
        reveal_strlit("://");
        reveal_strlit("https://");
    }
    assert("://"@ =~= scheme_sep());
    assert("https://"@ =~= https_prefix());
    let candidate = if text_contains(t, "://") {
        t.to_owned()
    } else {
        let mut c = "https://".to_owned();
        c.append(t);
        c
    };
    match url_host(candidate.as_str()) {
        Some(h) => Some(to_lowercase(h.as_str())),
        None => None,
    }
}

/// A host without a leading "www.".
fn without_www(h: &str) -> (r: &str)
    ensures
        r@ == strip_www(h@),
{
    proof {
        reveal_strlit("www.");
    }
    assert("www."@ =~= www_prefix());
    match strip_prefix(h, "www.") {
        Some(rest) => {
            assert(h@.take(4) =~= www_prefix());
            assert(h@.skip(4) =~= rest@);
            rest
        },
        None => h,
    }
}

/// Whether an entry's host serves the target host.
pub fn host_matches(entry_host: &str, target_host: &str) -> (r: bool)
    ensures
        r == hosts_match(entry_host@, target_host@),
{
    let entry = without_www(entry_host);
    let target = without_www(target_host);
    if same_text(entry, target) {
        return true;
    }
    proof {
        reveal_strlit(".");
    }
    assert("."@ =~= seq!['.']);
    let mut dotted = ".".to_owned();
    dotted.append(entry);
    text_ends_with(target, dotted.as_str())
}

/// The text before the first `c`, or all of it.
pub open spec fn before_first(s: Seq<char>, c: char) -> Seq<char>
    decreases s.len(),
{
    if s.len() == 0 {
        s
    } else if s[0] == c {
        Seq::empty()
    } else {
        seq![s[0]] + before_first(s.skip(1), c)
    }
}

/// The text after the first `c`, if there is one.
pub open spec fn after_first(s: Seq<char>, c: char) -> Option<Seq<char>>
    decreases s.len(),
{
    if s.len() == 0 {
        None
    } else if s[0] == c {
        Some(s.skip(1))
    } else {
        after_first(s.skip(1), c)
    }
}

proof fn lemma_split_first(s: Seq<char>, c: char, a: Seq<char>, b: Seq<char>)
    requires
        s == a + seq![c] + b,
        !a.contains(c),
    ensures
        before_first(s, c) == a,
        after_first(s, c) == Some(b),
    decreases a.len(),
{
    if a.len() == 0 {
        assert(s[0] == c);
        assert(s.skip(1) =~= b);
    } else {
        assert(a[0] != c) by {
            assert(a.contains(a[0]));
        }
        assert(s[0] == a[0]);
        let a1 = a.skip(1);
        assert(s.skip(1) =~= a1 + seq![c] + b);
        assert(!a1.contains(c)) by {
            if a1.contains(c) {
                let i = choose|i: int| 0 <= i < a1.len() && a1[i] == c;
                assert(a[i + 1] == c);
            }
        }
        lemma_split_first(s.skip(1), c, a1, b);
        assert(seq![a[0]] + a1 =~= a);
    }
}

proof fn lemma_no_split(s: Seq<char>, c: char)
    requires
        !s.contains(c),
    ensures
        before_first(s, c) == s,
        after_first(s, c) is None,
    decreases s.len(),
{
    if s.len() > 0 {
        assert(s[0] != c) by {
            assert(s.contains(s[0]));
        }
        let s1 = s.skip(1);
        assert(!s1.contains(c)) by {
            if s1.contains(c) {
                let i = choose|i: int| 0 <= i < s1.len() && s1[i] == c;
                assert(s[i + 1] == c);
            }
        }
        lemma_no_split(s1, c);
        assert(seq![s[0]] + s1 =~= s);
    }
}

/// The text of a URL before its first '?', and what follows it.
pub fn split_path_query(url: &str) -> (r: (&str, Option<&str>))
    ensures
        r.0@ == before_first(url@, '?'),
        match r.1 {
            Some(q) => after_first(url@, '?') == Some(q@),
            None => after_first(url@, '?') is None,
        },
{
    match split_once_char(url, '?') {
        Some((path, query)) => {
            proof {
                lemma_split_first(url@, '?', path@, query@);
            }
            (path, Some(query))
        },
        None => {
            proof {
                lemma_no_split(url@, '?');
            }
            (url, None)
        },
    }
}

/// The value of the last pair named `name`.
pub open spec fn last_value(pairs: Seq<(Seq<char>, Seq<char>)>, name: Seq<char>) -> Option<
    Seq<char>,
>
    decreases pairs.len(),
{
    if pairs.len() == 0 {
        None
    } else if pairs.last().0 == name {
        Some(pairs.last().1)
    } else {
        last_value(pairs.drop_last(), name)
    }
}

/// The value of a query parameter; where the name repeats, the last one.
pub open spec fn query_param_of(query: Option<Seq<char>>, name: Seq<char>) -> Option<Seq<char>> {
    match query {
        Some(q) => last_value(form_pairs_of(q), name),
        None => None,
    }
}

/// The value of a query parameter; where the name repeats, the last one.
pub fn query_param(query: Option<&str>, name: &str) -> (r: Option<String>)
    ensures
        match r {
            Some(v) => query_param_of(
                match query {
                    Some(q) => Some(q@),
                    None => None,
                },
                name@,
            ) == Some(v@),
            None => query_param_of(
                match query {
                    Some(q) => Some(q@),
                    None => None,
                },
                name@,
            ) is None,
        },
{
    let q = match query {
        Some(q) => q,
        None => {
            return None;
        },
    };
    let pairs = form_pairs(q);
    let ghost all = form_pairs_of(q@);
    let mut i: usize = pairs.len();
    assert(all.take(i as int) =~= all);
    while i > 0
        invariant
            query == Some(q),
            all == form_pairs_of(q@),
            i <= pairs@.len(),
            pairs@.len() == all.len(),
            forall|k: int|
                0 <= k < pairs@.len() ==> (#[trigger] pairs@[k]).0@ == all[k].0 && pairs@[k].1@
                    == all[k].1,
            last_value(all, name@) == last_value(all.take(i as int), name@),
        decreases i,
    {
        let key_matches = same_text(pairs[i - 1].0.as_str(), name);
        assert(all.take(i as int).last() == all[i - 1]);
        assert(pairs@[i - 1].0@ == all[i - 1].0 && pairs@[i - 1].1@ == all[i - 1].1);
        if key_matches {
            let v = pairs[i - 1].1.clone();
            assert(v@ == all[i - 1].1);
            return Some(v);
        }
        assert(all.take(i as int).drop_last() =~= all.take(i - 1));
        i = i - 1;
    }
    None
}

/// The token a request carries: a non-blank `X-Organizer-Token` header,
/// trimmed, or else the trimmed token of a `Bearer` `Authorization` header.
pub open spec fn token_of(header: Option<Seq<char>>, authorization: Option<Seq<char>>) -> Option<
    Seq<char>,
> {
    match header {
        Some(v) if trimmed(v).len() > 0 => Some(trimmed(v)),
        _ => match authorization {
            Some(a) => if starts_with(trimmed(a), bearer_prefix()) {
                Some(trimmed(trimmed(a).skip(7)))
            } else {
                None
            },
            None => None,
        },
    }
}

/// The token a request carries, from its `X-Organizer-Token` header or its
/// `Authorization: Bearer` header.
pub fn request_token(header: Option<&str>, authorization: Option<&str>) -> (r: Option<String>)
    ensures
        match r {
            Some(t) => token_of(
                match header {
                    Some(h) => Some(h@),
                    None => None,
                },
                match authorization {
                    Some(a) => Some(a@),
                    None => None,
                },
            ) == Some(t@),
            None => token_of(
                match header {
                    Some(h) => Some(h@),
                    None => None,
                },
                match authorization {
                    Some(a) => Some(a@),
                    None => None,
                },
            ) is None,
        },
{
    if let Some(value) = header {
        let t = trim(value);
        if !t.is_empty() {
            return Some(t.to_owned());
        }
    }
    if let Some(value) = authorization {
        let t = trim(value);
        proof {
            reveal_strlit("Bearer ");
        }
        assert("Bearer "@ =~= bearer_prefix());
        if let Some(token) = strip_prefix(t, "Bearer ") {
            assert(t@.take(7) =~= bearer_prefix());
            assert(t@.skip(7) =~= token@);
            return Some(trim(token).to_owned());
        }
    }
    None
}

/// Why a request is refused.
#[derive(Clone, Copy, Debug, PartialEq, Eq, Structural)]
pub enum AuthError {
    /// The bridge is switched off.
    Disabled,
    /// The request carries no token.
    Missing,
    /// The request carries another token.
    Invalid,
}

/// The outcome of checking a request's token against the settings.
pub open spec fn auth_of(config: ExtensionConfig, token: Option<Seq<char>>) -> Result<(), AuthError> {
    if !config.enabled {
        Err(AuthError::Disabled)
    } else {
        match token {
            None => Err(AuthError::Missing),
            Some(t) => if t != config.token@ {
                Err(AuthError::Invalid)
            } else {
                Ok(())
            },
        }
    }
}

/// Checks a request's token against the settings.
pub fn ensure_authorized(config: &ExtensionConfig, token: &Option<String>) -> (r: Result<
    (),
    AuthError,
>)
    ensures
        r == auth_of(
            *config,
            match token {
                Some(t) => Some(t@),
                None => None,
            },
        ),
{
    if !config.enabled {
        return Err(AuthError::Disabled);
    }
    match token {
        None => Err(AuthError::Missing),
        Some(t) => if *t != config.token {
            Err(AuthError::Invalid)
        } else {
            Ok(())
        },
    }
}

/// What the bridge tells a caller about an entry.
#[derive(Clone, Debug)]
pub struct ExtensionEntry {
    pub id: String,
    pub title: String,
    pub username: String,
    pub url: String,
}

impl ExtensionEntry {
    pub open spec fn shows(self, e: Entry) -> bool {
        &&& self.id@ == e.id@
        &&& self.title@ == e.title@
        &&& self.username@ == e.username@
        &&& self.url@ == e.url@
    }

    pub fn of_entry(e: &Entry) -> (r: ExtensionEntry)
        ensures
            r.shows(*e),
    {
        ExtensionEntry {
            id: e.id.clone(),
            title: e.title.clone(),
            username: e.username.clone(),
            url: e.url.clone(),
        }
    }
}

/// The method of a request, as far as the bridge tells them apart.
#[derive(Clone, Copy, Debug, PartialEq, Eq, Structural)]
pub enum RequestMethod {
    Get,
    Options,
    Other,
}

/// The body of a reply, before it is written as JSON.
#[derive(Debug)]
pub enum ReplyBody {
    /// `{}`
    Empty,
    /// `{"locked": ...}`
    Status { locked: bool },
    /// `{"entries": [...]}`
    Entries(Vec<ExtensionEntry>),
    /// `{"password": ...}`
    Secret(String),
    /// `{"error": ...}`
    Error(String),
}

/// A reply: its HTTP status and its body.
#[derive(Debug)]
pub struct BridgeReply {
    pub status: u16,
    pub body: ReplyBody,
}

/// The HTTP status of a refusal.
pub open spec fn auth_status(e: AuthError) -> u16 {
    match e {
        AuthError::Disabled => 423,
        AuthError::Missing => 401,
        AuthError::Invalid => 401,
    }
}

/// The error text of a refusal.
pub open spec fn auth_message(e: AuthError) -> Seq<char> {
    match e {
        AuthError::Disabled => "extension disabled"@,
        AuthError::Missing => "missing token"@,
        AuthError::Invalid => "invalid token"@,
    }
}

/// The reply to a refused request: its status and error text, nothing else.
pub fn auth_error_reply(err: AuthError) -> (r: BridgeReply)
    ensures
        r.status == auth_status(err),
        r.body matches ReplyBody::Error(m) && m@ == auth_message(err),
{
    let (status, message) = match err {
        AuthError::Disabled => (423u16, "extension disabled"),
        AuthError::Missing => (401u16, "missing token"),
        AuthError::Invalid => (401u16, "invalid token"),
    };
    BridgeReply { status, body: ReplyBody::Error(message.to_owned()) }
}

fn error_reply(status: u16, message: &str) -> (r: BridgeReply)
    ensures
        r.status == status,
        r.body matches ReplyBody::Error(m) && m@ == message@,
{
    BridgeReply { status, body: ReplyBody::Error(message.to_owned()) }
}

/// Whether an entry's URL has a host that serves the target host.
pub open spec fn serves(target: Seq<char>) -> spec_fn(Entry) -> bool {
    |e: Entry|
        match normalized_host(e.url@) {
            Some(h) => hosts_match(h, target),
            None => false,
        }
}

/// The public views of the entries whose URL serves the target host, in
/// order.
pub fn matching_entries(entries: &Vec<Entry>, target_host: &str) -> (r: Vec<ExtensionEntry>)
    ensures
        r@.len() == entries@.filter(serves(target_host@)).len(),
        forall|i: int|
            0 <= i < r@.len() ==> (#[trigger] r@[i]).shows(entries@.filter(serves(target_host@))[i]),
{
    let ghost p = serves(target_host@);
    let mut out: Vec<ExtensionEntry> = Vec::new();
    let mut i: usize = 0;
    proof {
        reveal(Seq::filter);
    }
    assert(entries@.take(0) =~= Seq::<Entry>::empty());
    while i < entries.len()
        invariant
            i <= entries@.len(),
            p == serves(target_host@),
            out@.len() == entries@.take(i as int).filter(p).len(),
            forall|j: int|
                0 <= j < out@.len() ==> (#[trigger] out@[j]).shows(
                    entries@.take(i as int).filter(p)[j],
                ),
        decreases entries@.len() - i,
    {
        let e = &entries[i];
        assert(entries@.take(i + 1).drop_last() =~= entries@.take(i as int));
        assert(entries@.take(i + 1).last() == entries@[i as int]);
        proof {
            reveal(Seq::filter);
        }
        let keep = match normalize_host(e.url.as_str()) {
            Some(h) => host_matches(h.as_str(), target_host),
            None => false,
        };
        if keep {
            out.push(ExtensionEntry::of_entry(e));
        }
        i = i + 1;
    }
    assert(entries@.take(entries@.len() as int) =~= entries@);
    out
}

/// Where a request goes.
#[derive(Clone, Copy, Debug, PartialEq, Eq, Structural)]
pub enum Route {
    Preflight,
    Status,
    Entries,
    Secret,
    Unknown,
}

pub open spec fn status_path() -> Seq<char> {
    seq!['/', 'v', '1', '/', 's', 't', 'a', 't', 'u', 's']
}

pub open spec fn entries_path() -> Seq<char> {
    seq!['/', 'v', '1', '/', 'e', 'n', 't', 'r', 'i', 'e', 's']
}

pub open spec fn secret_path() -> Seq<char> {
    seq!['/', 'v', '1', '/', 's', 'e', 'c', 'r', 'e', 't']
}

/// Where a request with this method and path goes.
pub open spec fn route_of(method: RequestMethod, path: Seq<char>) -> Route {
    if method == RequestMethod::Options {
        Route::Preflight
    } else if method == RequestMethod::Get && path == status_path() {
        Route::Status
    } else if method == RequestMethod::Get && path == entries_path() {
        Route::Entries
    } else if method == RequestMethod::Get && path == secret_path() {
        Route::Secret
    } else {
        Route::Unknown
    }
}

/// Where a request with this method and path goes.
pub fn route(method: RequestMethod, path: &str) -> (r: Route)
    ensures
        r == route_of(method, path@),
{
    proof {
        reveal_strlit("/v1/status");
        reveal_strlit("/v1/entries");
        reveal_strlit("/v1/secret");
    }
    assert("/v1/status"@ =~= status_path());
    assert("/v1/entries"@ =~= entries_path());
    assert("/v1/secret"@ =~= secret_path());
    if method == RequestMethod::Options {
        Route::Preflight
    } else if method == RequestMethod::Get && same_text(path, "/v1/status") {
        Route::Status
    } else if method == RequestMethod::Get && same_text(path, "/v1/entries") {
        Route::Entries
    } else if method == RequestMethod::Get && same_text(path, "/v1/secret") {
        Route::Secret
    } else {
        Route::Unknown
    }
}

/// "url", the query parameter of the entries route.
pub open spec fn url_param() -> Seq<char> {
    seq!['u', 'r', 'l']
}

/// "id", the query parameter of the secret route.
pub open spec fn id_param() -> Seq<char> {
    seq!['i', 'd']
}

/// Answers one bridge request, given its method, its URL (path and query)
/// and the token it carries.
///
/// A preflight gets an empty reply. A request for an unknown route gets 404.
/// A request for a known route is checked against the settings and refused
/// with 423 (bridge off) or 401 (no or another token); an accepted one counts
/// as an interaction. The status route reports whether the vault is locked.
/// The entries and secret routes answer 423 while the vault is locked, 400
/// without a usable parameter, and otherwise the entries whose URL serves the
/// host of the `url` parameter, or the password of the first entry whose
/// identifier is the `id` parameter (404 where there is none).
pub fn handle_request(
    state: &mut AppState,
    method: RequestMethod,
    url: &str,
    token: Option<String>,
    now: u64,
) -> (r: BridgeReply)
    ensures
        ({
            let path = before_first(url@, '?');
            let query = after_first(url@, '?');
            let rt = route_of(method, path);
            let auth = auth_of(
                old(state).extension_config,
                match token {
                    Some(t) => Some(t@),
                    None => None,
                },
            );
            let known = rt == Route::Status || rt == Route::Entries || rt == Route::Secret;
            let entries = old(state).entries_view();
            &&& rt == Route::Preflight ==> r.status == 204 && r.body is Empty && *final(state) == *old(
                state,
            )
            &&& rt == Route::Unknown ==> r.status == 404 && r.body is Error && *final(state) == *old(
                state,
            )
            &&& known && auth is Err ==> r.status == auth_status(auth->Err_0) && (r.body matches ReplyBody::Error(m)
                && m@ == auth_message(auth->Err_0)) && *final(state) == *old(state)
            &&& known && auth is Ok ==> *final(state) == old(state).touched_at(now)
            &&& rt == Route::Status && auth is Ok ==> r.status == 200 && r.body == ReplyBody::Status {
                locked: old(state).vault is Locked,
            }
            &&& (rt == Route::Entries || rt == Route::Secret) && auth is Ok && old(state).vault is Locked
                ==> r.status == 423 && r.body is Error
            &&& rt == Route::Entries && auth is Ok && !(old(state).vault is Locked) ==> match query_param_of(
                query,
                url_param(),
            ) {
                None => r.status == 400 && r.body is Error,
                Some(u) => if blank(u) {
                    r.status == 400 && r.body is Error
                } else {
                    match normalized_host(u) {
                        None => r.status == 400 && r.body is Error,
                        Some(h) => r.status == 200 && (r.body matches ReplyBody::Entries(v) && v@.len()
                            == entries.filter(serves(h)).len() && forall|i: int|
                            0 <= i < v@.len() ==> (#[trigger] v@[i]).shows(
                                entries.filter(serves(h))[i],
                            )),
                    }
                },
            }
            &&& rt == Route::Secret && auth is Ok && !(old(state).vault is Locked) ==> match query_param_of(
                query,
                id_param(),
            ) {
                None => r.status == 400 && r.body is Error,
                Some(id) => if blank(id) {
                    r.status == 400 && r.body is Error
                } else if !has_id(entries, id) {
                    r.status == 404 && r.body is Error
                } else {
                    r.status == 200 && (r.body matches ReplyBody::Secret(s) && exists|i: int| #[trigger]
                        first_with_id(entries, id, i) && s@ == entries[i].password@)
                },
            }
        }),
{
    proof {
        reveal_strlit("url");
        reveal_strlit("id");
    }
    assert("url"@ =~= url_param());
    assert("id"@ =~= id_param());
    let (path, query) = split_path_query(url);
    let rt = route(method, path);
    match rt {
        Route::Preflight => {
            return BridgeReply { status: 204, body: ReplyBody::Empty };
        },
        Route::Unknown => {
            return error_reply(404, "not found");
        },
        _ => {},
    }
    if let Err(e) = ensure_authorized(&state.extension_config, &token) {
        return auth_error_reply(e);
    }
    state.heartbeat(now);
    if rt == Route::Status {
        return BridgeReply { status: 200, body: ReplyBody::Status { locked: state.is_locked() } };
    }
    let entries = match &state.vault {
        VaultState::Locked => {
            return error_reply(423, "vault is locked");
        },
        VaultState::Unlocked { entries, .. } => entries,
    };
    if rt == Route::Entries {
        let target_url = match query_param(query, "url") {
            Some(v) => v,
            None => {
                return error_reply(400, "url is required");
            },
        };
        if is_blank(target_url.as_str()) {
            return error_reply(400, "url is required");
        }
        let target_host = match normalize_host(target_url.as_str()) {
            Some(h) => h,
            None => {
                return error_reply(400, "invalid url");
            },
        };
        let matches = matching_entries(entries, target_host.as_str());
        BridgeReply { status: 200, body: ReplyBody::Entries(matches) }
    } else {
        let entry_id = match query_param(query, "id") {
            Some(v) => v,
            None => {
                return error_reply(400, "id is required");
            },
        };
        if is_blank(entry_id.as_str()) {
            return error_reply(400, "id is required");
        }
        match position_of(entries, &entry_id) {
            None => error_reply(404, "entry not found"),
            Some(i) => BridgeReply { status: 200, body: ReplyBody::Secret(entries[i].password.clone()) },
        }
    }
}

} // verus!
