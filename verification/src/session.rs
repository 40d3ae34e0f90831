//! The session store and its state machine: one entry per in-flight
//! or settled authorization attempt, keyed by the state token that the
//! redirect later presents.
use vstd::prelude::*;
use crate::builder::{authorization_url_of, build_authorization_url, scopes_view};
use crate::challenge::{generate_code_challenge, spec_challenge};
use crate::errors::AuthError;
use crate::json::{parse_token_response, spec_parse_token_response};
use crate::random::{all_unreserved, generate_code_verifier, generate_state_token, STATE_TOKEN_LEN};
use crate::token::{
    build_body, build_refresh_body, spec_exchange_body, spec_refresh_body, TokenPair, TokenPairV,
};

verus! {

/// Seconds a started flow may wait for its code before it expires.
pub const EXPIRY_WINDOW_SECS: u64 = 600;

/// The phase of one session, with the tokens it holds, if any.
pub enum SessionStatus {
    AwaitingCode,
    Exchanging,
    Authenticated(TokenPair),
    Refreshing(TokenPair),
    Failed,
    Expired,
}

/// One authorization attempt.
pub struct Session {
    pub state_token: String,
    pub verifier: String,
    pub created_at: u64,
    pub status: SessionStatus,
}

/// A session's phase, at the level of views.
pub enum StatusV {
    AwaitingCode,
    Exchanging,
    Authenticated(TokenPairV),
    Refreshing(TokenPairV),
    Failed,
    Expired,
}

/// A session, at the level of views.
pub struct SessionV {
    pub state_token: Seq<char>,
    pub verifier: Seq<char>,
    pub created_at: u64,
    pub status: StatusV,
}

/// The view of a session's status.
pub open spec fn status_view(s: SessionStatus) -> StatusV {
    match s {
        SessionStatus::AwaitingCode => StatusV::AwaitingCode,
        SessionStatus::Exchanging => StatusV::Exchanging,
        SessionStatus::Authenticated(p) => StatusV::Authenticated(p.view()),
        SessionStatus::Refreshing(p) => StatusV::Refreshing(p.view()),
        SessionStatus::Failed => StatusV::Failed,
        SessionStatus::Expired => StatusV::Expired,
    }
}

/// The view of a session.
pub open spec fn session_view(s: Session) -> SessionV {
    SessionV {
        state_token: s.state_token@,
        verifier: s.verifier@,
        created_at: s.created_at,
        status: status_view(s.status),
    }
}

/// The index of the session keyed by `t`, or -1.
pub open spec fn idx_of(ss: Seq<SessionV>, t: Seq<char>) -> int
    decreases ss.len(),
{
    if ss.len() == 0 {
        -1
    } else if ss[0].state_token == t {
        0
    } else {
        let r = idx_of(ss.skip(1), t);
        if r == -1 {
            -1
        } else {
            r + 1
        }
    }
}

/// Whether some session is keyed by `t`.
pub open spec fn has_token(ss: Seq<SessionV>, t: Seq<char>) -> bool {
    idx_of(ss, t) >= 0
}

/// State tokens are pairwise distinct.
pub open spec fn wf_tokens(ss: Seq<SessionV>) -> bool {
    forall|i: int, j: int|
        0 <= i < j < ss.len() ==> (#[trigger] ss[i].state_token) != (#[trigger] ss[j].state_token)
}

/// `idx_of` finds the first session keyed by `t`, and -1 means none is.
pub proof fn lemma_idx_of_props(ss: Seq<SessionV>, t: Seq<char>)
    ensures
        idx_of(ss, t) >= -1,
        idx_of(ss, t) == -1 ==> forall|k: int| 0 <= k < ss.len() ==> (#[trigger] ss[k].state_token)
            != t,
        idx_of(ss, t) >= 0 ==> idx_of(ss, t) < ss.len() && ss[idx_of(ss, t)].state_token == t,
        idx_of(ss, t) >= 0 ==> forall|j: int|
            0 <= j < idx_of(ss, t) ==> (#[trigger] ss[j].state_token) != t,
    decreases ss.len(),
{
    if ss.len() > 0 && ss[0].state_token != t {
        lemma_idx_of_props(ss.skip(1), t);
        let r = idx_of(ss.skip(1), t);
        if r == -1 {
            assert(idx_of(ss, t) == -1);
            assert forall|k: int| 0 <= k < ss.len() implies (#[trigger] ss[k].state_token) != t by {
                if k >= 1 {
                    assert(ss.skip(1)[k - 1] == ss[k]);
                    assert(ss.skip(1)[k - 1].state_token != t);
                }
            }
        } else {
            assert(idx_of(ss, t) == r + 1);
            assert(ss.skip(1).len() == ss.len() - 1);
            assert(0 <= r < ss.skip(1).len());
            assert(ss.skip(1)[r] == ss[r + 1]);
            assert forall|j: int| 0 <= j < r + 1 implies (#[trigger] ss[j].state_token) != t by {
                if j >= 1 {
                    assert(ss.skip(1)[j - 1] == ss[j]);
                    assert(ss.skip(1)[j - 1].state_token != t);
                }
            }
        }
    }
}

/// The first match is what `idx_of` returns.
pub proof fn lemma_idx_of_found(ss: Seq<SessionV>, t: Seq<char>, k: int)
    requires
        0 <= k < ss.len(),
        ss[k].state_token == t,
        forall|j: int| 0 <= j < k ==> (#[trigger] ss[j].state_token) != t,
    ensures
        idx_of(ss, t) == k,
    decreases k,
{
    if k > 0 {
        assert forall|j: int| 0 <= j < k - 1 implies (#[trigger] ss.skip(1)[j].state_token) != t by {
            assert(ss.skip(1)[j] == ss[j + 1]);
        }
        assert(ss.skip(1)[k - 1] == ss[k]);
        lemma_idx_of_found(ss.skip(1), t, k - 1);
    }
}

/// No match anywhere means `idx_of` returns -1.
pub proof fn lemma_idx_of_none(ss: Seq<SessionV>, t: Seq<char>)
    requires
        forall|j: int| 0 <= j < ss.len() ==> (#[trigger] ss[j].state_token) != t,
    ensures
        idx_of(ss, t) == -1,
    decreases ss.len(),
{
    if ss.len() > 0 {
        assert forall|j: int| 0 <= j < ss.len() - 1 implies (#[trigger] ss.skip(1)[j].state_token)
            != t by {
            assert(ss.skip(1)[j] == ss[j + 1]);
        }
        lemma_idx_of_none(ss.skip(1), t);
    }
}

/// Two well-formed sessions never share a state token: distinct
/// sessions are always distinguishable at the redirect.
pub proof fn lemma_state_tokens_unique(ss: Seq<SessionV>, i: int, j: int)
    requires
        wf_tokens(ss),
        0 <= i < ss.len(),
        0 <= j < ss.len(),
        i != j,
    ensures
        ss[i].state_token != ss[j].state_token,
{
}

/// The store of all live sessions.
pub struct SessionStore {
    pub sessions: Vec<Session>,
}

/// A freshly started flow: the key the redirect will present, and the
/// URL to send the user to.
pub struct StartedFlow {
    pub state_token: String,
    pub url: String,
}

impl SessionStore {
    /// The sessions, at the level of views.
    pub open spec fn view_seq(self) -> Seq<SessionV> {
        self.sessions@.map_values(|s: Session| session_view(s))
    }

    /// Well-formed: state tokens are pairwise distinct.
    pub open spec fn wf(self) -> bool {
        wf_tokens(self.view_seq())
    }

    /// Creates an empty store.
    pub fn new() -> (r: SessionStore)
        ensures
            r.view_seq() =~= Seq::<SessionV>::empty(),
            r.wf(),
    {
        SessionStore { sessions: Vec::new() }
    }

    /// The number of sessions held.
    pub fn len(&self) -> (r: usize)
        ensures
            r == self.view_seq().len(),
    {
        self.sessions.len()
    }

    fn find_session(&self, state: &str) -> (r: Option<usize>)
        ensures
            r matches Some(k) ==> k < self.view_seq().len() && idx_of(self.view_seq(), state@)
                == k as int,
            r is None ==> idx_of(self.view_seq(), state@) == -1,
    {
        let t = String::from_str(state);
        let n = self.sessions.len();
        let mut k: usize = 0;
        while k < n
            invariant
                n == self.sessions.len(),
                k <= n,
                t@ == state@,
                forall|j: int|
                    0 <= j < k ==> (#[trigger] self.view_seq()[j].state_token) != state@,
            decreases n - k,
        {
            if self.sessions[k].state_token.eq(&t) {
                proof {
                    lemma_idx_of_found(self.view_seq(), state@, k as int);
                }
                return Some(k);
            }
            k = k + 1;
        }
        proof {
            lemma_idx_of_none(self.view_seq(), state@);
        }
        None
    }

    /// Starts a flow from a given verifier and state token: derives the
    /// challenge, builds the authorization URL, and records the session
    /// as awaiting its code. A verifier of a length outside 43..=128 is
    /// rejected with `InvalidLength`, an empty client id or redirect URI
    /// with `ConfigError`, and a state token already keying a live
    /// session with `StateCollision` — never by silent overwrite.
    pub fn start_flow_with(
        &mut self,
        client_id: &str,
        redirect_uri: &str,
        scopes: &Vec<String>,
        verifier: &str,
        state_token: &str,
        now: u64,
    ) -> (r: Result<String, AuthError>)
        ensures
            r is Ok <==> (43 <= verifier@.len() <= 128 && client_id@.len() > 0
                && redirect_uri@.len() > 0 && !has_token(old(self).view_seq(), state_token@)),
            r matches Ok(u) ==> final(self).view_seq() =~= old(self).view_seq().push(
                SessionV {
                    state_token: state_token@,
                    verifier: verifier@,
                    created_at: now,
                    status: StatusV::AwaitingCode,
                },
            ) && u@ == authorization_url_of(
                client_id@,
                redirect_uri@,
                scopes_view(scopes@),
                spec_challenge(verifier@),
                state_token@,
            ),
            r is Err ==> final(self).view_seq() =~= old(self).view_seq(),
            r matches Err(e) ==> e == (if !(43 <= verifier@.len() <= 128) {
                AuthError::InvalidLength
            } else if client_id@.len() == 0 || redirect_uri@.len() == 0 {
                AuthError::ConfigError
            } else {
                AuthError::StateCollision
            }),
            old(self).wf() && r is Ok ==> final(self).wf(),
            old(self).wf() && r is Err ==> final(self).wf(),
    {
        let vlen = verifier.unicode_len();
        if vlen < 43 || vlen > 128 {
            return Err(AuthError::InvalidLength);
        }
        let challenge = generate_code_challenge(verifier);
        let url = match build_authorization_url(
            client_id,
            redirect_uri,
            scopes,
            challenge.as_str(),
            state_token,
        ) {
            Ok(u) => u,
            Err(e) => {
                return Err(e);
            },
        };
        if let Some(_k) = self.find_session(state_token) {
            return Err(AuthError::StateCollision);
        }
        proof {
            lemma_idx_of_props(self.view_seq(), state_token@);
        }
        let sess = Session {
            state_token: String::from_str(state_token),
            verifier: String::from_str(verifier),
            created_at: now,
            status: SessionStatus::AwaitingCode,
        };
        self.sessions.push(sess);
        proof {
            assert(final(self).view_seq() =~= old(self).view_seq().push(
                SessionV {
                    state_token: state_token@,
                    verifier: verifier@,
                    created_at: now,
                    status: StatusV::AwaitingCode,
                },
            ));
        }
        Ok(url)
    }

    /// Starts a flow with a freshly drawn verifier of the given length
    /// and a freshly drawn state token. On success the new session is
    /// appended, awaiting its code, and the returned URL carries the
    /// challenge derived from the new session's verifier.
    pub fn start_flow(
        &mut self,
        client_id: &str,
        redirect_uri: &str,
        scopes: &Vec<String>,
        length: usize,
        now: u64,
    ) -> (r: Result<StartedFlow, AuthError>)
        ensures
            !(43 <= length <= 128) ==> r == Err::<StartedFlow, AuthError>(AuthError::InvalidLength),
            43 <= length <= 128 && (client_id@.len() == 0 || redirect_uri@.len() == 0) ==> r
                == Err::<StartedFlow, AuthError>(AuthError::ConfigError),
            r is Err ==> final(self).view_seq() =~= old(self).view_seq(),
            r matches Err(e) ==> (e == AuthError::InvalidLength || e == AuthError::ConfigError
                || e == AuthError::StateCollision),
            r == Err::<StartedFlow, AuthError>(AuthError::StateCollision) ==> old(
                self,
            ).view_seq().len() > 0,
            43 <= length <= 128 && client_id@.len() > 0 && redirect_uri@.len() > 0 && old(
                self,
            ).view_seq().len() == 0 ==> r is Ok,
            r matches Ok(f) ==> ({
                let ss = final(self).view_seq();
                let added = ss[ss.len() - 1];
                ss.len() == old(self).view_seq().len() + 1
                && ss.take(old(self).view_seq().len() as int) =~= old(self).view_seq()
                && added.state_token == f.state_token@
                && added.created_at == now
                && added.status is AwaitingCode
                && added.verifier.len() == length
                && all_unreserved(added.verifier)
                && f.state_token@.len() == STATE_TOKEN_LEN
                && all_unreserved(f.state_token@)
                && !has_token(old(self).view_seq(), f.state_token@)
                && f.url@ == authorization_url_of(
                    client_id@,
                    redirect_uri@,
                    scopes_view(scopes@),
                    spec_challenge(added.verifier),
                    f.state_token@,
                )
            }),
            old(self).wf() ==> final(self).wf(),
    {
        let verifier = match generate_code_verifier(length) {
            Ok(v) => v,
            Err(e) => {
                return Err(e);
            },
        };
        let state_token = generate_state_token();
        let r = self.start_flow_with(
            client_id,
            redirect_uri,
            scopes,
            verifier.as_str(),
            state_token.as_str(),
            now,
        );
        match r {
            Ok(url) => {
                proof {
                    let ss = self.view_seq();
                    assert(ss.take(old(self).view_seq().len() as int) =~= old(self).view_seq());
                }
                Ok(StartedFlow { state_token, url })
            },
            Err(e) => {
                proof {
                    if e == AuthError::StateCollision {
                        lemma_idx_of_props(old(self).view_seq(), state_token@);
                    }
                }
                Err(e)
            },
        }
    }
}

/// The session with its status replaced.
pub open spec fn set_status(s: SessionV, st: StatusV) -> SessionV {
    SessionV {
        state_token: s.state_token,
        verifier: s.verifier,
        created_at: s.created_at,
        status: st,
    }
}

/// The session after a successful exchange: the verifier, consumed by
/// the token exchange, is discarded, and the status replaced.
pub open spec fn consume_verifier(s: SessionV, st: StatusV) -> SessionV {
    SessionV {
        state_token: s.state_token,
        verifier: Seq::<char>::empty(),
        created_at: s.created_at,
        status: st,
    }
}

/// `now + delay`, saturating at the top of the range.
pub open spec fn sat_add64(now: u64, delay: int) -> u64 {
    if now as int + delay > u64::MAX as int {
        u64::MAX
    } else {
        (now as int + delay) as u64
    }
}

/// Whether an awaiting session has outlived its window at `now`.
pub open spec fn expired_by(s: SessionV, now: u64) -> bool {
    now as int >= s.created_at as int + EXPIRY_WINDOW_SECS as int
}

/// The submission of an authorization code: the store afterwards, and
/// the exchange body to send, or the error.
pub open spec fn submit_spec(
    ss: Seq<SessionV>,
    code: Seq<char>,
    state: Seq<char>,
    redirect_uri: Seq<char>,
    now: u64,
) -> (Seq<SessionV>, Result<Seq<char>, AuthError>) {
    let k = idx_of(ss, state);
    if k == -1 {
        (ss, Err(AuthError::SessionNotFound))
    } else {
        let sess = ss[k];
        match sess.status {
            StatusV::AwaitingCode => {
                if expired_by(sess, now) {
                    (ss.update(k, set_status(sess, StatusV::Expired)), Err(AuthError::SessionExpired))
                } else {
                    (
                        ss.update(k, set_status(sess, StatusV::Exchanging)),
                        Ok(spec_exchange_body(code, sess.verifier, redirect_uri)),
                    )
                }
            },
            StatusV::Expired => (ss, Err(AuthError::SessionExpired)),
            _ => (ss, Err(AuthError::SessionBusy)),
        }
    }
}

/// The handling of the provider's exchange response: the store
/// afterwards, and the new token pair, or the error.
pub open spec fn exchange_response_spec(
    ss: Seq<SessionV>,
    state: Seq<char>,
    status_code: u16,
    body: Seq<char>,
    now: u64,
) -> (Seq<SessionV>, Result<TokenPairV, AuthError>) {
    let k = idx_of(ss, state);
    if k == -1 {
        (ss, Err(AuthError::SessionNotFound))
    } else {
        let sess = ss[k];
        match sess.status {
            StatusV::Exchanging => {
                if 200 <= status_code && status_code < 300 {
                    match spec_parse_token_response(body) {
                        Some((at, Some(rt), exp)) => {
                            let pair = TokenPairV {
                                access_token: at,
                                refresh_token: rt,
                                expires_at: sat_add64(now, exp),
                            };
                            (
                                ss.update(k, consume_verifier(sess, StatusV::Authenticated(pair))),
                                Ok(pair),
                            )
                        },
                        _ => (
                            ss.update(k, set_status(sess, StatusV::Failed)),
                            Err(AuthError::MalformedResponse),
                        ),
                    }
                } else if 500 <= status_code && status_code < 600 {
                    (
                        ss.update(k, set_status(sess, StatusV::AwaitingCode)),
                        Err(AuthError::NetworkError),
                    )
                } else {
                    (
                        ss.update(k, set_status(sess, StatusV::Failed)),
                        Err(AuthError::ExchangeRejected),
                    )
                }
            },
            StatusV::Expired => (ss, Err(AuthError::SessionExpired)),
            _ => (ss, Err(AuthError::SessionBusy)),
        }
    }
}

/// The start of a refresh: the store afterwards, and the refresh body
/// to send, or the error.
pub open spec fn refresh_request_spec(ss: Seq<SessionV>, state: Seq<char>) -> (
    Seq<SessionV>,
    Result<Seq<char>, AuthError>,
) {
    let k = idx_of(ss, state);
    if k == -1 {
        (ss, Err(AuthError::SessionNotFound))
    } else {
        let sess = ss[k];
        match sess.status {
            StatusV::Authenticated(pair) => (
                ss.update(k, set_status(sess, StatusV::Refreshing(pair))),
                Ok(spec_refresh_body(pair.refresh_token)),
            ),
            StatusV::Expired => (ss, Err(AuthError::SessionExpired)),
            _ => (ss, Err(AuthError::SessionBusy)),
        }
    }
}

/// The handling of the provider's refresh response. A missing
/// refresh token in a successful response keeps the old one.
pub open spec fn refresh_response_spec(
    ss: Seq<SessionV>,
    state: Seq<char>,
    status_code: u16,
    body: Seq<char>,
    now: u64,
) -> (Seq<SessionV>, Result<TokenPairV, AuthError>) {
    let k = idx_of(ss, state);
    if k == -1 {
        (ss, Err(AuthError::SessionNotFound))
    } else {
        let sess = ss[k];
        match sess.status {
            StatusV::Refreshing(oldp) => {
                if 200 <= status_code && status_code < 300 {
                    match spec_parse_token_response(body) {
                        Some((at, rto, exp)) => {
                            let pair = TokenPairV {
                                access_token: at,
                                refresh_token: match rto {
                                    Some(rt) => rt,
                                    None => oldp.refresh_token,
                                },
                                expires_at: sat_add64(now, exp),
                            };
                            (
                                ss.update(k, set_status(sess, StatusV::Authenticated(pair))),
                                Ok(pair),
                            )
                        },
                        None => (
                            ss.update(k, set_status(sess, StatusV::Failed)),
                            Err(AuthError::MalformedResponse),
                        ),
                    }
                } else if 500 <= status_code && status_code < 600 {
                    (
                        ss.update(k, set_status(sess, StatusV::Authenticated(oldp))),
                        Err(AuthError::NetworkError),
                    )
                } else {
                    (
                        ss.update(k, set_status(sess, StatusV::Failed)),
                        Err(AuthError::RefreshRejected),
                    )
                }
            },
            StatusV::Expired => (ss, Err(AuthError::SessionExpired)),
            _ => (ss, Err(AuthError::SessionBusy)),
        }
    }
}

/// The cancellation of an in-flight exchange or refresh: the session
/// reverts to its state before the operation.
pub open spec fn cancel_spec(ss: Seq<SessionV>, state: Seq<char>) -> (
    Seq<SessionV>,
    Result<(), AuthError>,
) {
    let k = idx_of(ss, state);
    if k == -1 {
        (ss, Err(AuthError::SessionNotFound))
    } else {
        let sess = ss[k];
        match sess.status {
            StatusV::Exchanging => (ss.update(k, set_status(sess, StatusV::AwaitingCode)), Ok(())),
            StatusV::Refreshing(p) => (
                ss.update(k, set_status(sess, StatusV::Authenticated(p))),
                Ok(()),
            ),
            StatusV::Expired => (ss, Err(AuthError::SessionExpired)),
            _ => (ss, Err(AuthError::SessionBusy)),
        }
    }
}

/// Every awaiting session past its window, marked expired.
pub open spec fn sweep_spec(ss: Seq<SessionV>, now: u64) -> Seq<SessionV> {
    ss.map_values(
        |s: SessionV|
            if s.status is AwaitingCode && expired_by(s, now) {
                set_status(s, StatusV::Expired)
            } else {
                s
            },
    )
}

proof fn lemma_remove_insert(s: Seq<Session>, k: int, x: Session)
    requires
        0 <= k < s.len(),
    ensures
        s.remove(k).insert(k, x) =~= s.update(k, x),
{
}

/// A pointwise status change keeps the tokens, so it keeps
/// well-formedness.
pub proof fn lemma_wf_same_tokens(ss: Seq<SessionV>, ss2: Seq<SessionV>)
    requires
        wf_tokens(ss),
        ss2.len() == ss.len(),
        forall|i: int| 0 <= i < ss.len() ==> (#[trigger] ss2[i].state_token) == ss[i].state_token,
    ensures
        wf_tokens(ss2),
{
    assert forall|i: int, j: int| 0 <= i < j < ss2.len() implies (#[trigger] ss2[i].state_token)
        != (#[trigger] ss2[j].state_token) by {
        assert(ss[i].state_token != ss[j].state_token);
    }
}

impl SessionStore {
    /// Accepts the code and state delivered by the redirect. An unknown
    /// state token is rejected with `SessionNotFound` and changes
    /// nothing; a session past its window turns `Expired` and answers
    /// `SessionExpired`, as does one already expired; a session already
    /// mid-operation or settled answers `SessionBusy`. Otherwise the
    /// session turns `Exchanging` and the exchange body to send is
    /// handed back, carrying this session's own verifier.
    pub fn submit_authorization_result(
        &mut self,
        code: &str,
        state: &str,
        redirect_uri: &str,
        now: u64,
    ) -> (r: Result<String, AuthError>)
        ensures
            final(self).view_seq() =~= submit_spec(
                old(self).view_seq(),
                code@,
                state@,
                redirect_uri@,
                now,
            ).0,
            r matches Ok(b) ==> submit_spec(old(self).view_seq(), code@, state@, redirect_uri@, now).1
                == Ok::<Seq<char>, AuthError>(b@),
            r matches Err(e) ==> submit_spec(old(self).view_seq(), code@, state@, redirect_uri@, now).1
                == Err::<Seq<char>, AuthError>(e),
            old(self).wf() ==> final(self).wf(),
    {
        let k = match self.find_session(state) {
            None => {
                return Err(AuthError::SessionNotFound);
            },
            Some(k) => k,
        };
        let ghost oldv = self.view_seq();
        let sess = self.sessions.remove(k);
        match sess.status {
            SessionStatus::AwaitingCode => {
                if now >= EXPIRY_WINDOW_SECS && sess.created_at <= now - EXPIRY_WINDOW_SECS {
                    let s2 = Session {
                        state_token: sess.state_token,
                        verifier: sess.verifier,
                        created_at: sess.created_at,
                        status: SessionStatus::Expired,
                    };
                    self.sessions.insert(k, s2);
                    proof {
                        lemma_remove_insert(old(self).sessions@, k as int, s2);
                        assert(final(self).view_seq() =~= submit_spec(
                            oldv,
                            code@,
                            state@,
                            redirect_uri@,
                            now,
                        ).0);
                        if old(self).wf() {
                            lemma_wf_same_tokens(oldv, final(self).view_seq());
                        }
                    }
                    Err(AuthError::SessionExpired)
                } else {
                    let body = build_body(code, sess.verifier.as_str(), redirect_uri);
                    let s2 = Session {
                        state_token: sess.state_token,
                        verifier: sess.verifier,
                        created_at: sess.created_at,
                        status: SessionStatus::Exchanging,
                    };
                    self.sessions.insert(k, s2);
                    proof {
                        lemma_remove_insert(old(self).sessions@, k as int, s2);
                        assert(final(self).view_seq() =~= submit_spec(
                            oldv,
                            code@,
                            state@,
                            redirect_uri@,
                            now,
                        ).0);
                        if old(self).wf() {
                            lemma_wf_same_tokens(oldv, final(self).view_seq());
                        }
                    }
                    Ok(body)
                }
            },
            SessionStatus::Expired => {
                let s2 = Session {
                    state_token: sess.state_token,
                    verifier: sess.verifier,
                    created_at: sess.created_at,
                    status: SessionStatus::Expired,
                };
                self.sessions.insert(k, s2);
                proof {
                    lemma_remove_insert(old(self).sessions@, k as int, s2);
                    assert(final(self).view_seq() =~= oldv);
                }
                Err(AuthError::SessionExpired)
            },
            st => {
                let s2 = Session {
                    state_token: sess.state_token,
                    verifier: sess.verifier,
                    created_at: sess.created_at,
                    status: st,
                };
                self.sessions.insert(k, s2);
                proof {
                    lemma_remove_insert(old(self).sessions@, k as int, s2);
                    assert(final(self).view_seq() =~= oldv);
                }
                Err(AuthError::SessionBusy)
            },
        }
    }

    /// Accepts the provider's answer to the exchange request: its HTTP
    /// status and body, read by the caller's transport. A 2xx body of
    /// the accepted shape (with a refresh token) authenticates the
    /// session, hands back the new pair, and discards the session's
    /// verifier, which the exchange has consumed; a 2xx body of any other
    /// shape fails the session with `MalformedResponse`; a 5xx reverts
    /// the session to awaiting its code, for the caller to retry, with
    /// `NetworkError`; any other status fails it with
    /// `ExchangeRejected`.
    pub fn submit_token_response(
        &mut self,
        state: &str,
        status_code: u16,
        body: &str,
        now: u64,
    ) -> (r: Result<TokenPair, AuthError>)
        ensures
            final(self).view_seq() =~= exchange_response_spec(
                old(self).view_seq(),
                state@,
                status_code,
                body@,
                now,
            ).0,
            r matches Ok(p) ==> exchange_response_spec(
                old(self).view_seq(),
                state@,
                status_code,
                body@,
                now,
            ).1 == Ok::<TokenPairV, AuthError>(p.view()),
            r matches Err(e) ==> exchange_response_spec(
                old(self).view_seq(),
                state@,
                status_code,
                body@,
                now,
            ).1 == Err::<TokenPairV, AuthError>(e),
            old(self).wf() ==> final(self).wf(),
    {
        let k = match self.find_session(state) {
            None => {
                return Err(AuthError::SessionNotFound);
            },
            Some(k) => k,
        };
        let ghost oldv = self.view_seq();
        let sess = self.sessions.remove(k);
        match sess.status {
            SessionStatus::Exchanging => {
                let (status, out, consumed) = if 200 <= status_code && status_code < 300 {
                    match parse_token_response(body) {
                        Some(t) => match t.refresh_token {
                            Some(rt) => {
                                let expires_at = match now.checked_add(t.expires_in) {
                                    Some(v) => v,
                                    None => u64::MAX,
                                };
                                let pair = TokenPair {
                                    access_token: t.access_token,
                                    refresh_token: rt,
                                    expires_at,
                                };
                                let stored = pair.clone_pair();
                                (SessionStatus::Authenticated(stored), Ok(pair), true)
                            },
                            None => (
                                SessionStatus::Failed,
                                Err(AuthError::MalformedResponse),
                                false,
                            ),
                        },
                        None => (SessionStatus::Failed, Err(AuthError::MalformedResponse), false),
                    }
                } else if 500 <= status_code && status_code < 600 {
                    (SessionStatus::AwaitingCode, Err(AuthError::NetworkError), false)
                } else {
                    (SessionStatus::Failed, Err(AuthError::ExchangeRejected), false)
                };
                let verifier = if consumed {
                    String::new()
                } else {
                    sess.verifier
                };
                let s2 = Session {
                    state_token: sess.state_token,
                    verifier,
                    created_at: sess.created_at,
                    status,
                };
                self.sessions.insert(k, s2);
                proof {
                    lemma_remove_insert(old(self).sessions@, k as int, s2);
                    assert(final(self).view_seq() =~= exchange_response_spec(
                        oldv,
                        state@,
                        status_code,
                        body@,
                        now,
                    ).0);
                    if old(self).wf() {
                        lemma_wf_same_tokens(oldv, final(self).view_seq());
                    }
                }
                out
            },
            SessionStatus::Expired => {
                let s2 = Session {
                    state_token: sess.state_token,
                    verifier: sess.verifier,
                    created_at: sess.created_at,
                    status: SessionStatus::Expired,
                };
                self.sessions.insert(k, s2);
                proof {
                    lemma_remove_insert(old(self).sessions@, k as int, s2);
                    assert(final(self).view_seq() =~= oldv);
                }
                Err(AuthError::SessionExpired)
            },
            st => {
                let s2 = Session {
                    state_token: sess.state_token,
                    verifier: sess.verifier,
                    created_at: sess.created_at,
                    status: st,
                };
                self.sessions.insert(k, s2);
                proof {
                    lemma_remove_insert(old(self).sessions@, k as int, s2);
                    assert(final(self).view_seq() =~= oldv);
                }
                Err(AuthError::SessionBusy)
            },
        }
    }

    /// Begins a refresh on an authenticated session: the session turns
    /// `Refreshing`, keeping its pair, and the refresh body to send is
    /// handed back, carrying the session's refresh token.
    pub fn refresh_request(&mut self, state: &str) -> (r: Result<String, AuthError>)
        ensures
            final(self).view_seq() =~= refresh_request_spec(old(self).view_seq(), state@).0,
            r matches Ok(b) ==> refresh_request_spec(old(self).view_seq(), state@).1 == Ok::<
                Seq<char>,
                AuthError,
            >(b@),
            r matches Err(e) ==> refresh_request_spec(old(self).view_seq(), state@).1 == Err::<
                Seq<char>,
                AuthError,
            >(e),
            old(self).wf() ==> final(self).wf(),
    {
        let k = match self.find_session(state) {
            None => {
                return Err(AuthError::SessionNotFound);
            },
            Some(k) => k,
        };
        let ghost oldv = self.view_seq();
        let sess = self.sessions.remove(k);
        match sess.status {
            SessionStatus::Authenticated(pair) => {
                let body = build_refresh_body(pair.refresh_token.as_str());
                let s2 = Session {
                    state_token: sess.state_token,
                    verifier: sess.verifier,
                    created_at: sess.created_at,
                    status: SessionStatus::Refreshing(pair),
                };
                self.sessions.insert(k, s2);
                proof {
                    lemma_remove_insert(old(self).sessions@, k as int, s2);
                    assert(final(self).view_seq() =~= refresh_request_spec(oldv, state@).0);
                    if old(self).wf() {
                        lemma_wf_same_tokens(oldv, final(self).view_seq());
                    }
                }
                Ok(body)
            },
            SessionStatus::Expired => {
                let s2 = Session {
                    state_token: sess.state_token,
                    verifier: sess.verifier,
                    created_at: sess.created_at,
                    status: SessionStatus::Expired,
                };
                self.sessions.insert(k, s2);
                proof {
                    lemma_remove_insert(old(self).sessions@, k as int, s2);
                    assert(final(self).view_seq() =~= oldv);
                }
                Err(AuthError::SessionExpired)
            },
            st => {
                let s2 = Session {
                    state_token: sess.state_token,
                    verifier: sess.verifier,
                    created_at: sess.created_at,
                    status: st,
                };
                self.sessions.insert(k, s2);
                proof {
                    lemma_remove_insert(old(self).sessions@, k as int, s2);
                    assert(final(self).view_seq() =~= oldv);
                }
                Err(AuthError::SessionBusy)
            },
        }
    }

    /// Accepts the provider's answer to a refresh. A 2xx body of the
    /// accepted shape authenticates the session with the new pair; if
    /// the body carries no refresh token, the old one is retained. A
    /// malformed 2xx body fails the session; a 5xx reverts it to
    /// `Authenticated` with its old pair; any other status fails it
    /// with `RefreshRejected`.
    pub fn submit_refresh_response(
        &mut self,
        state: &str,
        status_code: u16,
        body: &str,
        now: u64,
    ) -> (r: Result<TokenPair, AuthError>)
        ensures
            final(self).view_seq() =~= refresh_response_spec(
                old(self).view_seq(),
                state@,
                status_code,
                body@,
                now,
            ).0,
            r matches Ok(p) ==> refresh_response_spec(
                old(self).view_seq(),
                state@,
                status_code,
                body@,
                now,
            ).1 == Ok::<TokenPairV, AuthError>(p.view()),
            r matches Err(e) ==> refresh_response_spec(
                old(self).view_seq(),
                state@,
                status_code,
                body@,
                now,
            ).1 == Err::<TokenPairV, AuthError>(e),
            old(self).wf() ==> final(self).wf(),
    {
        let k = match self.find_session(state) {
            None => {
                return Err(AuthError::SessionNotFound);
            },
            Some(k) => k,
        };
        let ghost oldv = self.view_seq();
        let sess = self.sessions.remove(k);
        match sess.status {
            SessionStatus::Refreshing(oldp) => {
                let (status, out) = if 200 <= status_code && status_code < 300 {
                    match parse_token_response(body) {
                        Some(t) => {
                            let expires_at = match now.checked_add(t.expires_in) {
                                Some(v) => v,
                                None => u64::MAX,
                            };
                            let rt = match t.refresh_token {
                                Some(rt) => rt,
                                None => oldp.refresh_token,
                            };
                            let pair = TokenPair {
                                access_token: t.access_token,
                                refresh_token: rt,
                                expires_at,
                            };
                            let stored = pair.clone_pair();
                            (SessionStatus::Authenticated(stored), Ok(pair))
                        },
                        None => (SessionStatus::Failed, Err(AuthError::MalformedResponse)),
                    }
                } else if 500 <= status_code && status_code < 600 {
                    (SessionStatus::Authenticated(oldp), Err(AuthError::NetworkError))
                } else {
                    (SessionStatus::Failed, Err(AuthError::RefreshRejected))
                };
                let s2 = Session {
                    state_token: sess.state_token,
                    verifier: sess.verifier,
                    created_at: sess.created_at,
                    status,
                };
                self.sessions.insert(k, s2);
                proof {
                    lemma_remove_insert(old(self).sessions@, k as int, s2);
                    assert(final(self).view_seq() =~= refresh_response_spec(
                        oldv,
                        state@,
                        status_code,
                        body@,
                        now,
                    ).0);
                    if old(self).wf() {
                        lemma_wf_same_tokens(oldv, final(self).view_seq());
                    }
                }
                out
            },
            SessionStatus::Expired => {
                let s2 = Session {
                    state_token: sess.state_token,
                    verifier: sess.verifier,
                    created_at: sess.created_at,
                    status: SessionStatus::Expired,
                };
                self.sessions.insert(k, s2);
                proof {
                    lemma_remove_insert(old(self).sessions@, k as int, s2);
                    assert(final(self).view_seq() =~= oldv);
                }
                Err(AuthError::SessionExpired)
            },
            st => {
                let s2 = Session {
                    state_token: sess.state_token,
                    verifier: sess.verifier,
                    created_at: sess.created_at,
                    status: st,
                };
                self.sessions.insert(k, s2);
                proof {
                    lemma_remove_insert(old(self).sessions@, k as int, s2);
                    assert(final(self).view_seq() =~= oldv);
                }
                Err(AuthError::SessionBusy)
            },
        }
    }

    /// Cancels an in-flight exchange or refresh: the session reverts
    /// to the state it held before the operation began, since nothing
    /// destructive has happened on the client's model.
    pub fn cancel(&mut self, state: &str) -> (r: Result<(), AuthError>)
        ensures
            final(self).view_seq() =~= cancel_spec(old(self).view_seq(), state@).0,
            r == cancel_spec(old(self).view_seq(), state@).1,
            old(self).wf() ==> final(self).wf(),
    {
        let k = match self.find_session(state) {
            None => {
                return Err(AuthError::SessionNotFound);
            },
            Some(k) => k,
        };
        let ghost oldv = self.view_seq();
        let sess = self.sessions.remove(k);
        match sess.status {
            SessionStatus::Exchanging => {
                let s2 = Session {
                    state_token: sess.state_token,
                    verifier: sess.verifier,
                    created_at: sess.created_at,
                    status: SessionStatus::AwaitingCode,
                };
                self.sessions.insert(k, s2);
                proof {
                    lemma_remove_insert(old(self).sessions@, k as int, s2);
                    assert(final(self).view_seq() =~= cancel_spec(oldv, state@).0);
                    if old(self).wf() {
                        lemma_wf_same_tokens(oldv, final(self).view_seq());
                    }
                }
                Ok(())
            },
            SessionStatus::Refreshing(pair) => {
                let s2 = Session {
                    state_token: sess.state_token,
                    verifier: sess.verifier,
                    created_at: sess.created_at,
                    status: SessionStatus::Authenticated(pair),
                };
                self.sessions.insert(k, s2);
                proof {
                    lemma_remove_insert(old(self).sessions@, k as int, s2);
                    assert(final(self).view_seq() =~= cancel_spec(oldv, state@).0);
                    if old(self).wf() {
                        lemma_wf_same_tokens(oldv, final(self).view_seq());
                    }
                }
                Ok(())
            },
            SessionStatus::Expired => {
                let s2 = Session {
                    state_token: sess.state_token,
                    verifier: sess.verifier,
                    created_at: sess.created_at,
                    status: SessionStatus::Expired,
                };
                self.sessions.insert(k, s2);
                proof {
                    lemma_remove_insert(old(self).sessions@, k as int, s2);
                    assert(final(self).view_seq() =~= oldv);
                }
                Err(AuthError::SessionExpired)
            },
            st => {
                let s2 = Session {
                    state_token: sess.state_token,
                    verifier: sess.verifier,
                    created_at: sess.created_at,
                    status: st,
                };
                self.sessions.insert(k, s2);
                proof {
                    lemma_remove_insert(old(self).sessions@, k as int, s2);
                    assert(final(self).view_seq() =~= oldv);
                }
                Err(AuthError::SessionBusy)
            },
        }
    }

    /// Marks every awaiting session past its window as expired,
    /// closing the replay window. Expired entries stay in the store,
    /// so that later submissions of their state tokens answer
    /// `SessionExpired` rather than `SessionNotFound`.
    pub fn sweep_expired(&mut self, now: u64)
        ensures
            final(self).view_seq() =~= sweep_spec(old(self).view_seq(), now),
            old(self).wf() ==> final(self).wf(),
    {
        let n = self.sessions.len();
        let mut k: usize = 0;
        while k < n
            invariant
                n == self.sessions.len(),
                n == old(self).view_seq().len(),
                k <= n,
                forall|j: int|
                    0 <= j < k ==> #[trigger] self.view_seq()[j] == sweep_spec(
                        old(self).view_seq(),
                        now,
                    )[j],
                forall|j: int|
                    k <= j < n ==> #[trigger] self.view_seq()[j] == old(self).view_seq()[j],
            decreases n - k,
        {
            let expire = match &self.sessions[k].status {
                SessionStatus::AwaitingCode => now >= EXPIRY_WINDOW_SECS
                    && self.sessions[k].created_at <= now - EXPIRY_WINDOW_SECS,
                _ => false,
            };
            if expire {
                let ghost prevs = self.sessions@;
                let ghost prevv = self.view_seq();
                let sess = self.sessions.remove(k);
                let s2 = Session {
                    state_token: sess.state_token,
                    verifier: sess.verifier,
                    created_at: sess.created_at,
                    status: SessionStatus::Expired,
                };
                self.sessions.insert(k, s2);
                proof {
                    lemma_remove_insert(prevs, k as int, s2);
                    assert(self.sessions@ =~= prevs.update(k as int, s2));
                    assert(self.view_seq() =~= prevv.update(k as int, session_view(s2)));
                    assert(prevs.len() == n);
                    assert(sess == prevs[k as int]);
                    assert(prevv[k as int] == session_view(prevs[k as int]));
                    assert(prevv[k as int] == old(self).view_seq()[k as int]);
                    assert(session_view(s2) == set_status(
                        prevv[k as int],
                        StatusV::Expired,
                    ));
                    assert(sweep_spec(old(self).view_seq(), now)[k as int] == set_status(
                        old(self).view_seq()[k as int],
                        StatusV::Expired,
                    ));
                }
            } else {
                proof {
                    assert(self.view_seq()[k as int] == old(self).view_seq()[k as int]);
                    assert(self.view_seq()[k as int] == session_view(self.sessions@[k as int]));
                    assert(sweep_spec(old(self).view_seq(), now)[k as int] == old(
                        self,
                    ).view_seq()[k as int]);
                }
            }
            k = k + 1;
        }
        proof {
            assert(final(self).view_seq() =~= sweep_spec(old(self).view_seq(), now));
            if old(self).wf() {
                lemma_wf_same_tokens(old(self).view_seq(), final(self).view_seq());
            }
        }
    }

    /// The phase the session keyed by `state` is in, if any.
    pub fn phase_of(&self, state: &str) -> (r: Option<SessionPhase>)
        ensures
            r is Some <==> has_token(self.view_seq(), state@),
            r matches Some(p) ==> p == phase_of_status(
                self.view_seq()[idx_of(self.view_seq(), state@)].status,
            ),
    {
        match self.find_session(state) {
            None => None,
            Some(k) => {
                let p = match &self.sessions[k].status {
                    SessionStatus::AwaitingCode => SessionPhase::AwaitingCode,
                    SessionStatus::Exchanging => SessionPhase::Exchanging,
                    SessionStatus::Authenticated(_) => SessionPhase::Authenticated,
                    SessionStatus::Refreshing(_) => SessionPhase::Refreshing,
                    SessionStatus::Failed => SessionPhase::Failed,
                    SessionStatus::Expired => SessionPhase::Expired,
                };
                Some(p)
            },
        }
    }

    /// The token pair of the session keyed by `state`, if it is
    /// authenticated.
    pub fn token_pair(&self, state: &str) -> (r: Option<TokenPair>)
        ensures
            r is Some <==> (has_token(self.view_seq(), state@) && self.view_seq()[idx_of(
                self.view_seq(),
                state@,
            )].status is Authenticated),
            r matches Some(p) ==> self.view_seq()[idx_of(self.view_seq(), state@)].status
                == StatusV::Authenticated(p.view()),
    {
        match self.find_session(state) {
            None => None,
            Some(k) => match &self.sessions[k].status {
                SessionStatus::Authenticated(pair) => Some(pair.clone_pair()),
                _ => None,
            },
        }
    }
}

/// The phase of a session, without its payload.
#[derive(Clone, Copy, Debug, PartialEq, Eq, Structural)]
pub enum SessionPhase {
    AwaitingCode,
    Exchanging,
    Authenticated,
    Refreshing,
    Failed,
    Expired,
}

/// CSRF rejection: a code submitted with a state token that keys no
/// session fails with `SessionNotFound` and changes nothing — no
/// token pair can come of it.
pub proof fn lemma_csrf_rejection(
    ss: Seq<SessionV>,
    code: Seq<char>,
    state: Seq<char>,
    redirect_uri: Seq<char>,
    now: u64,
)
    requires
        !has_token(ss, state),
    ensures
        submit_spec(ss, code, state, redirect_uri, now).0 == ss,
        submit_spec(ss, code, state, redirect_uri, now).1 == Err::<Seq<char>, AuthError>(
            AuthError::SessionNotFound,
        ),
{
    lemma_idx_of_props(ss, state);
}

/// Expiry: an awaiting session past its window turns `Expired` on the
/// next code submission, which fails with `SessionExpired`; every
/// further submission for that state token keeps failing with
/// `SessionExpired` and moves nothing.
pub proof fn lemma_expiry(
    ss: Seq<SessionV>,
    code: Seq<char>,
    code2: Seq<char>,
    state: Seq<char>,
    redirect_uri: Seq<char>,
    now: u64,
    later: u64,
)
    requires
        has_token(ss, state),
        ss[idx_of(ss, state)].status is AwaitingCode,
        expired_by(ss[idx_of(ss, state)], now),
    ensures
        ({
            let k = idx_of(ss, state);
            let (ss2, r) = submit_spec(ss, code, state, redirect_uri, now);
            let (ss3, r2) = submit_spec(ss2, code2, state, redirect_uri, later);
            r == Err::<Seq<char>, AuthError>(AuthError::SessionExpired) && ss2 == ss.update(
                k,
                set_status(ss[k], StatusV::Expired),
            ) && r2 == Err::<Seq<char>, AuthError>(AuthError::SessionExpired) && ss3 == ss2
        }),
{
    lemma_idx_of_props(ss, state);
    let k = idx_of(ss, state);
    let ss2 = ss.update(k, set_status(ss[k], StatusV::Expired));
    assert(ss2[k].state_token == state);
    assert forall|j: int| 0 <= j < k implies (#[trigger] ss2[j].state_token) != state by {
        assert(ss2[j] == ss[j]);
    }
    lemma_idx_of_found(ss2, state, k);
}

/// Round trip: starting a flow appends a session holding the verifier
/// whose challenge the authorization URL carries; submitting a code
/// for the same state token, within the window, hands back an exchange
/// body carrying that very verifier — the challenge the provider
/// re-derives from the body is the challenge the URL sent.
pub proof fn lemma_round_trip(
    ss: Seq<SessionV>,
    verifier: Seq<char>,
    state: Seq<char>,
    code: Seq<char>,
    redirect_uri: Seq<char>,
    now: u64,
    later: u64,
)
    requires
        !has_token(ss, state),
        (later as int) < now as int + EXPIRY_WINDOW_SECS as int,
    ensures
        ({
            let started = ss.push(
                SessionV {
                    state_token: state,
                    verifier,
                    created_at: now,
                    status: StatusV::AwaitingCode,
                },
            );
            submit_spec(started, code, state, redirect_uri, later).1 == Ok::<Seq<char>, AuthError>(
                spec_exchange_body(code, verifier, redirect_uri),
            )
        }),
{
    lemma_idx_of_props(ss, state);
    let added = SessionV {
        state_token: state,
        verifier,
        created_at: now,
        status: StatusV::AwaitingCode,
    };
    let started = ss.push(added);
    assert(started[ss.len() as int] == added);
    assert forall|j: int| 0 <= j < ss.len() implies (#[trigger] started[j].state_token)
        != state by {
        assert(started[j] == ss[j]);
    }
    lemma_idx_of_found(started, state, ss.len() as int);
}

/// End to end: a flow started with verifier v and state token t, whose
/// code is submitted within the window and answered 2xx with a body
/// parsing to access token `at`, refresh token `rt` and expiry delay
/// `exp`, first hands back the exchange body carrying v, then the pair
/// {at, rt, now2 + exp}; the session ends `Authenticated` holding that
/// pair, its verifier consumed and discarded, still keyed by t, so a
/// replay of the code answers `SessionBusy` and never a second pair.
pub proof fn lemma_end_to_end(
    ss: Seq<SessionV>,
    verifier: Seq<char>,
    state: Seq<char>,
    code: Seq<char>,
    redirect_uri: Seq<char>,
    status_code: u16,
    body: Seq<char>,
    at: Seq<char>,
    rt: Seq<char>,
    exp: int,
    now: u64,
    later: u64,
    now2: u64,
)
    requires
        !has_token(ss, state),
        (later as int) < now as int + EXPIRY_WINDOW_SECS as int,
        200 <= status_code < 300,
        spec_parse_token_response(body) == Some((at, Some(rt), exp)),
    ensures
        ({
            let started = ss.push(
                SessionV {
                    state_token: state,
                    verifier,
                    created_at: now,
                    status: StatusV::AwaitingCode,
                },
            );
            let (ss2, r1) = submit_spec(started, code, state, redirect_uri, later);
            let (ss3, r2) = exchange_response_spec(ss2, state, status_code, body, now2);
            let pair = TokenPairV {
                access_token: at,
                refresh_token: rt,
                expires_at: sat_add64(now2, exp),
            };
            r1 == Ok::<Seq<char>, AuthError>(spec_exchange_body(code, verifier, redirect_uri))
                && r2 == Ok::<TokenPairV, AuthError>(pair) && idx_of(ss3, state) == ss.len()
                && ss3[ss.len() as int].status == StatusV::Authenticated(pair)
                && ss3[ss.len() as int].verifier == Seq::<char>::empty() && submit_spec(
                ss3,
                code,
                state,
                redirect_uri,
                later,
            ) == (ss3, Err::<Seq<char>, AuthError>(AuthError::SessionBusy))
        }),
{
    lemma_idx_of_props(ss, state);
    let added = SessionV {
        state_token: state,
        verifier,
        created_at: now,
        status: StatusV::AwaitingCode,
    };
    let started = ss.push(added);
    let k = ss.len() as int;
    assert(started[k] == added);
    assert forall|j: int| 0 <= j < k implies (#[trigger] started[j].state_token) != state by {
        assert(started[j] == ss[j]);
    }
    lemma_idx_of_found(started, state, k);
    let ss2 = started.update(k, set_status(added, StatusV::Exchanging));
    assert(ss2[k].state_token == state);
    assert forall|j: int| 0 <= j < k implies (#[trigger] ss2[j].state_token) != state by {
        assert(ss2[j] == started[j]);
    }
    lemma_idx_of_found(ss2, state, k);
    let pair = TokenPairV { access_token: at, refresh_token: rt, expires_at: sat_add64(now2, exp) };
    let ss3 = ss2.update(k, consume_verifier(ss2[k], StatusV::Authenticated(pair)));
    assert(ss3[k].state_token == state);
    assert forall|j: int| 0 <= j < k implies (#[trigger] ss3[j].state_token) != state by {
        assert(ss3[j] == ss2[j]);
    }
    lemma_idx_of_found(ss3, state, k);
}

/// The phase of a status view.
pub open spec fn phase_of_status(st: StatusV) -> SessionPhase {
    match st {
        StatusV::AwaitingCode => SessionPhase::AwaitingCode,
        StatusV::Exchanging => SessionPhase::Exchanging,
        StatusV::Authenticated(_) => SessionPhase::Authenticated,
        StatusV::Refreshing(_) => SessionPhase::Refreshing,
        StatusV::Failed => SessionPhase::Failed,
        StatusV::Expired => SessionPhase::Expired,
    }
}

} // verus!
