//! One request's session, step by step. The caller runs the store round trips
//! and the handler; these functions make every decision between them.
//!
//! Load: `start_load` reads the request's cookies and either names the id to
//! fetch or gives an empty, id-less session at once; `finish_load` turns what
//! the store answered into the session that the handler sees.
//!
//! Update: `plan_update` turns the handler's verdict into nothing to do or one
//! store write, with a cookie where a new id was minted; `finish_update` turns
//! the store's answer into the cookie to attach or an error.
use vstd::prelude::*;

use rand::Rng;

use crate::codec::{decode_state, encode_state, json_decoded, json_encoded};
use crate::cookie::{find_cookie, first_named, opt_view, render_cookie, set_cookie_text, sign_session_id,
    signed_value, verified_value, verify_session_cookie};
use crate::session::{ConfigView, RedisSession};
use crate::state::SessionState;

verus! {

/// Why a request could not be served; both are internal errors to the client.
#[derive(Clone, Copy, Debug, PartialEq, Eq, Structural)]
pub enum SessionError {
    /// The store failed to answer or to write.
    Store,
    /// The session could not be serialized.
    Encode,
}

/// The id a session goes under, as known after loading.
pub enum SessionKey {
    /// A correctly signed cookie named it: writes reuse it, no cookie is sent.
    Existing(String),
    /// No usable cookie: a write mints a new id and sends its cookie.
    Unassigned,
}

/// Where the loaded state came from. A missing record and a malformed one
/// both give an empty state, but keep the cookie's id.
#[derive(Clone, Copy, Debug, PartialEq, Eq, Structural)]
pub enum Origin {
    /// No cookie of the configured name, or one whose signature fails.
    NoCookie,
    /// The store held the session and it decoded.
    Stored,
    /// The store held nothing under the id.
    Absent,
    /// The store held bytes that are not a session.
    Malformed,
}

/// The session that the handler starts from.
pub struct LoadedSession {
    pub state: SessionState,
    pub key: SessionKey,
    pub origin: Origin,
}

/// The first step of loading.
pub enum LoadStart {
    /// Fetch this id from the store, then call `finish_load`.
    Fetch(String),
    /// Nothing to fetch: the session is this.
    Ready(LoadedSession),
}

/// The store's answer to a read.
pub enum Fetched {
    Found(Vec<u8>),
    Missing,
    Failed,
}

/// The store's answer to a write.
#[derive(Clone, Copy, Debug, PartialEq, Eq, Structural)]
pub enum Written {
    Ack,
    Failed,
}

/// What the handler did to the session.
pub enum Change {
    Unchanged,
    /// The session changed; this is its final content.
    Changed(SessionState),
}

/// One write to the store, and the cookie to attach once it succeeds.
pub struct PendingWrite {
    pub id: String,
    pub body: Vec<u8>,
    pub ttl: i64,
    pub cookie: Option<String>,
}

/// What the end of a request needs.
pub enum UpdatePlan {
    /// Leave the response as it is.
    PassThrough,
    /// Write the session, then attach the cookie if there is one.
    Write(PendingWrite),
}

pub ghost enum PlanView {
    PassThrough,
    Write { id: Seq<char>, body: Seq<u8>, ttl: i64, cookie: Option<Seq<char>> },
}

impl View for UpdatePlan {
    type V = PlanView;

    open spec fn view(&self) -> PlanView {
        match self {
            UpdatePlan::PassThrough => PlanView::PassThrough,
            UpdatePlan::Write(w) => PlanView::Write {
                id: w.id@,
                body: w.body@,
                ttl: w.ttl,
                cookie: opt_view(w.cookie),
            },
        }
    }
}

pub open spec fn plan_result_view(r: Result<UpdatePlan, SessionError>) -> Result<PlanView, SessionError> {
    match r {
        Ok(p) => Ok(p@),
        Err(e) => Err(e),
    }
}

/// The id that the request's cookie names, where one is present and its
/// signature holds.
pub open spec fn cookie_id(cfg: ConfigView, cookies: Seq<(String, String)>) -> Option<Seq<char>> {
    match first_named(cookies, cfg.name) {
        Some(raw) => verified_value(cfg.secret, raw),
        None => None,
    }
}

/// The state and its origin that a store answer gives, or the error.
pub open spec fn loaded(fetched: Fetched) -> Result<(Map<Seq<char>, Seq<char>>, Origin), SessionError> {
    match fetched {
        Fetched::Failed => Err(SessionError::Store),
        Fetched::Missing => Ok((Map::empty(), Origin::Absent)),
        Fetched::Found(b) => match json_decoded(b@) {
            Some(m) => Ok((m, Origin::Stored)),
            None => Ok((Map::empty(), Origin::Malformed)),
        },
    }
}

/// The `Set-Cookie` text that hands a browser the id `id`.
pub open spec fn new_cookie_text(cfg: ConfigView, id: Seq<char>) -> Seq<char> {
    set_cookie_text(cfg.name, signed_value(cfg.secret, id), cfg.path, cfg.domain, cfg.secure, cfg.max_age, cfg.same_site)
}

/// The end of a request, with `fresh` as the id minted if one is needed.
pub open spec fn planned(cfg: ConfigView, key: SessionKey, change: Change, fresh: Seq<char>) -> Result<PlanView, SessionError> {
    match change {
        Change::Unchanged => Ok(PlanView::PassThrough),
        Change::Changed(s) => match json_encoded(s@) {
            None => Err(SessionError::Encode),
            Some(body) => match key {
                SessionKey::Existing(id) => Ok(PlanView::Write { id: id@, body, ttl: cfg.ttl, cookie: None }),
                SessionKey::Unassigned => Ok(PlanView::Write {
                    id: fresh,
                    body,
                    ttl: cfg.ttl,
                    cookie: Some(new_cookie_text(cfg, fresh)),
                }),
            },
        },
    }
}

pub open spec fn outcome_view(r: Result<Option<String>, SessionError>) -> Result<Option<Seq<char>>, SessionError> {
    match r {
        Ok(c) => Ok(opt_view(c)),
        Err(e) => Err(e),
    }
}

/// What the request ends with once the store has answered a write.
pub open spec fn finished(cookie: Option<Seq<char>>, written: Written) -> Result<Option<Seq<char>>, SessionError> {
    match written {
        Written::Ack => Ok(cookie),
        Written::Failed => Err(SessionError::Store),
    }
}

pub open spec fn is_alphanumeric(c: char) -> bool {
    ('a' <= c && c <= 'z') || ('A' <= c && c <= 'Z') || ('0' <= c && c <= '9')
}

/// A session id: 32 ASCII letters and digits.
pub open spec fn is_session_id(s: Seq<char>) -> bool {
    s.len() == 32 && forall|i: int| 0 <= i < s.len() ==> is_alphanumeric(#[trigger] s[i])
}

pub open spec fn change_wf(change: Change) -> bool {
    match change {
        Change::Changed(s) => s.wf(),
        Change::Unchanged => true,
    }
}

/// Relies on rand's Alphanumeric distribution drawn from OsRng: an ASCII
/// letter or digit, from the operating system's random source.
#[verifier::external_body]
fn random_alphanumeric() -> (r: char)
    ensures
        is_alphanumeric(r),
{
    rand::rngs::OsRng.sample(rand::distributions::Alphanumeric) as char
}

/// Relies on `String: FromIterator<char>`: the characters in order.
#[verifier::external_body]
fn collect_chars(chars: &Vec<char>) -> (r: String)
    ensures
        r@ == chars@,
{
    chars.iter().collect()
}

/// A new random session id.
pub fn generate_session_id() -> (r: String)
    ensures
        is_session_id(r@),
{
    let mut chars: Vec<char> = Vec::new();
    let mut i: usize = 0;
    while i < 32
        invariant
            i <= 32,
            chars@.len() == i,
            forall|j: int| 0 <= j < i ==> is_alphanumeric(#[trigger] chars@[j]),
        decreases 32 - i,
    {
        let c = random_alphanumeric();
        chars.push(c);
        i = i + 1;
    }
    collect_chars(&chars)
}

/// Reads the request's cookies (name and value, in order): the id to fetch
/// where the first cookie of the configured name carries a valid signature,
/// else an empty session without an id.
pub fn start_load(cfg: &RedisSession, cookies: &Vec<(String, String)>) -> (r: LoadStart)
    ensures
        match r {
            LoadStart::Fetch(id) => cookie_id(cfg@, cookies@) == Some(id@),
            LoadStart::Ready(l) => cookie_id(cfg@, cookies@) is None && l.state.wf()
                && l.state@ == Map::<Seq<char>, Seq<char>>::empty() && l.key is Unassigned
                && l.origin == Origin::NoCookie,
        },
{
    let secret = cfg.secret();
    let found = find_cookie(cookies, cfg.cookie_name_ref());
    let id = match found {
        Some(raw) => verify_session_cookie(secret, raw.as_str()),
        None => None,
    };
    match id {
        Some(id) => LoadStart::Fetch(id),
        None => LoadStart::Ready(
            LoadedSession { state: SessionState::new(), key: SessionKey::Unassigned, origin: Origin::NoCookie },
        ),
    }
}

/// Turns the store's answer for the cookie's `id` into the session the
/// handler sees. The id is kept whatever the store held; a missing or
/// malformed record gives an empty state; a failed read is an error.
pub fn finish_load(id: String, fetched: Fetched) -> (r: Result<LoadedSession, SessionError>)
    ensures
        match r {
            Ok(l) => l.state.wf() && l.key == SessionKey::Existing(id) && loaded(fetched) == Ok::<(Map<Seq<char>, Seq<char>>, Origin), SessionError>((l.state@, l.origin)),
            Err(e) => loaded(fetched) == Err::<(Map<Seq<char>, Seq<char>>, Origin), SessionError>(e),
        },
{
    match fetched {
        Fetched::Failed => Err(SessionError::Store),
        Fetched::Missing => Ok(LoadedSession { state: SessionState::new(), key: SessionKey::Existing(id), origin: Origin::Absent }),
        Fetched::Found(bytes) => match decode_state(bytes.as_slice()) {
            Some(state) => Ok(LoadedSession { state, key: SessionKey::Existing(id), origin: Origin::Stored }),
            None => Ok(LoadedSession { state: SessionState::new(), key: SessionKey::Existing(id), origin: Origin::Malformed }),
        },
    }
}

/// The end of a request, with `fresh` as the id to mint if the session
/// changed and has none: no change passes through; a change is serialized and
/// written under the existing id, or under `fresh` with a cookie for it.
pub fn plan_update_with_id(cfg: &RedisSession, key: &SessionKey, change: &Change, fresh: &str) -> (r: Result<UpdatePlan, SessionError>)
    requires
        change_wf(*change),
    ensures
        plan_result_view(r) == planned(cfg@, *key, *change, fresh@),
{
    match change {
        Change::Unchanged => Ok(UpdatePlan::PassThrough),
        Change::Changed(state) => match encode_state(state) {
            None => Err(SessionError::Encode),
            Some(body) => match key {
                SessionKey::Existing(id) => Ok(UpdatePlan::Write(PendingWrite { id: id.clone(), body, ttl: cfg.ttl_value(), cookie: None })),
                SessionKey::Unassigned => {
                    let signed = sign_session_id(cfg.secret(), fresh);
                    let cookie = render_cookie(
                        cfg.cookie_name_ref().as_str(),
                        signed.as_str(),
                        cfg.cookie_path_ref().as_str(),
                        cfg.cookie_domain_ref(),
                        cfg.cookie_secure_value(),
                        cfg.cookie_max_age_value(),
                        cfg.cookie_same_site_value(),
                    );
                    Ok(UpdatePlan::Write(PendingWrite { id: fresh.to_string(), body, ttl: cfg.ttl_value(), cookie: Some(cookie) }))
                },
            },
        },
    }
}

/// The end of a request: as `plan_update_with_id`, with a new random session
/// id drawn where one is minted (a changed session without an id).
pub fn plan_update(cfg: &RedisSession, key: &SessionKey, change: &Change) -> (r: Result<UpdatePlan, SessionError>)
    requires
        change_wf(*change),
    ensures
        exists|fresh: Seq<char>| is_session_id(fresh) && plan_result_view(r) == #[trigger] planned(cfg@, *key, *change, fresh),
{
    let mint = match (key, change) {
        (SessionKey::Unassigned, Change::Changed(_)) => true,
        _ => false,
    };
    if mint {
        let fresh = generate_session_id();
        plan_update_with_id(cfg, key, change, fresh.as_str())
    } else {
        let r = plan_update_with_id(cfg, key, change, "");
        proof {
            let some_id = Seq::new(32, |i: int| 'a');
            assert(is_session_id(some_id));
            assert(planned(cfg@, *key, *change, some_id) == planned(cfg@, *key, *change, ""@));
        }
        r
    }
}

/// The cookie to attach once the store has answered the write, or the error:
/// a failed write attaches nothing.
pub fn finish_update(pending: PendingWrite, written: Written) -> (r: Result<Option<String>, SessionError>)
    ensures
        outcome_view(r) == finished(opt_view(pending.cookie), written),
{
    match written {
        Written::Ack => Ok(pending.cookie),
        Written::Failed => Err(SessionError::Store),
    }
}

/// A session that the handler left unchanged is never written and gets no
/// cookie, whether or not a session was loaded.
pub proof fn lemma_unchanged_writes_nothing(cfg: ConfigView, key: SessionKey, fresh: Seq<char>)
    ensures
        planned(cfg, key, Change::Unchanged, fresh) == Ok::<PlanView, SessionError>(PlanView::PassThrough),
{
}

/// A request without a cookie of the configured name whose session changed is
/// written under the newly minted id, and once the write succeeds exactly one
/// cookie goes out, carrying that id signed.
pub proof fn lemma_new_session_minted(
    cfg: ConfigView,
    cookies: Seq<(String, String)>,
    state: SessionState,
    fresh: Seq<char>,
)
    requires
        first_named(cookies, cfg.name) is None,
        state.wf(),
        json_encoded(state@) is Some,
    ensures
        cookie_id(cfg, cookies) is None,
        planned(cfg, SessionKey::Unassigned, Change::Changed(state), fresh) == Ok::<PlanView, SessionError>(
            PlanView::Write {
                id: fresh,
                body: json_encoded(state@)->0,
                ttl: cfg.ttl,
                cookie: Some(new_cookie_text(cfg, fresh)),
            },
        ),
        finished(Some(new_cookie_text(cfg, fresh)), Written::Ack)
            == Ok::<Option<Seq<char>>, SessionError>(Some(new_cookie_text(cfg, fresh))),
{
}

/// A request whose cookie carries a valid signature and whose session changed
/// is written under the id of that cookie, and no cookie goes out.
pub proof fn lemma_existing_id_reused(
    cfg: ConfigView,
    cookies: Seq<(String, String)>,
    id: String,
    state: SessionState,
    fresh: Seq<char>,
)
    requires
        cookie_id(cfg, cookies) == Some(id@),
        state.wf(),
        json_encoded(state@) is Some,
    ensures
        planned(cfg, SessionKey::Existing(id), Change::Changed(state), fresh) == Ok::<PlanView, SessionError>(
            PlanView::Write { id: id@, body: json_encoded(state@)->0, ttl: cfg.ttl, cookie: None },
        ),
        finished(None, Written::Ack) == Ok::<Option<Seq<char>>, SessionError>(None),
{
}

/// Stored bytes that do not decode give an empty session without an error,
/// and if the handler leaves it unchanged nothing is written.
pub proof fn lemma_malformed_is_empty(cfg: ConfigView, key: SessionKey, bytes: Vec<u8>, fresh: Seq<char>)
    requires
        json_decoded(bytes@) is None,
    ensures
        loaded(Fetched::Found(bytes)) == Ok::<(Map<Seq<char>, Seq<char>>, Origin), SessionError>(
            (Map::empty(), Origin::Malformed),
        ),
        planned(cfg, key, Change::Unchanged, fresh) == Ok::<PlanView, SessionError>(PlanView::PassThrough),
{
}

/// A failed store write ends the request in an error, with no cookie.
pub proof fn lemma_failed_write_is_error(cookie: Option<Seq<char>>)
    ensures
        finished(cookie, Written::Failed) == Err::<Option<Seq<char>>, SessionError>(SessionError::Store),
{
}

} // verus!
