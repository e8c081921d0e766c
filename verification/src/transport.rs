//! Request dispatch: credential selection, request preparation, and the
//! bounded retry rule.
//!
//! The transport performs one HTTP exchange per attempt. The decisions around
//! the exchange — which credential kinds a request accepts, how the outcome
//! of an attempt is classified, and when a rejected credential earns exactly
//! one refresh-and-retry — are pure functions verified here; the embedding
//! application runs the loop that acts on them.

use vstd::prelude::*;

use crate::credential::AccessTokenType;
use crate::envelope::classify_envelope;
use crate::envelope::is_auth_rejected;
use crate::envelope::spec_auth_rejected;
use crate::envelope::TransportError;
use crate::envelope::SUCCESS_CODE;

verus! {

/// The identity the client was configured with; the credential cache is keyed
/// by it and by the credential kind.
pub struct Config {
    pub app_id: String,
    pub app_secret: String,
    pub base_url: String,
}

impl Config {
    pub fn new(app_id: String, app_secret: String, base_url: String) -> (r: Config)
        ensures
            r.app_id == app_id,
            r.app_secret == app_secret,
            r.base_url == base_url,
    {
        Config { app_id, app_secret, base_url }
    }
}

/// The HTTP method of a prepared request.
#[derive(Clone, Copy, PartialEq, Eq, Structural, Debug)]
pub enum HttpMethod {
    Get,
    Post,
    Put,
    Patch,
    Delete,
}

/// A fully prepared description of one API call, immutable once built: the
/// transport attaches a credential of one of the accepted kinds and delivers
/// the body to the path.
pub struct ApiRequest {
    pub http_method: HttpMethod,
    pub api_path: String,
    pub query_params: Vec<(String, String)>,
    pub body: Vec<u8>,
    pub supported_access_token_types: Vec<AccessTokenType>,
}

impl ApiRequest {
    /// An empty request: no path, no parameters, no body, accepting no
    /// credential kind (an anonymous call).
    pub fn new() -> (r: ApiRequest)
        ensures
            r.http_method == HttpMethod::Get,
            r.api_path@ == Seq::<char>::empty(),
            r.query_params@ == Seq::<(String, String)>::empty(),
            r.body@ == Seq::<u8>::empty(),
            r.supported_access_token_types@ == Seq::<AccessTokenType>::empty(),
    {
        ApiRequest {
            http_method: HttpMethod::Get,
            api_path: String::new(),
            query_params: Vec::new(),
            body: Vec::new(),
            supported_access_token_types: Vec::new(),
        }
    }

    /// Sets a query parameter: replaces the value under `key` if one is
    /// present, appends the pair otherwise. Keys stay unique.
    pub fn set_query_param(&mut self, key: String, value: String)
        requires
            old(self).params_wf(),
        ensures
            final(self).params_wf(),
            final(self).http_method == old(self).http_method,
            final(self).api_path == old(self).api_path,
            final(self).body == old(self).body,
            final(self).supported_access_token_types == old(self).supported_access_token_types,
            final(self).param_of(key@) == Some(value@),
            forall|k: Seq<char>|
                k != key@ ==> #[trigger] final(self).param_of(k) == old(self).param_of(k),
    {
        let ghost keyv = key@;
        let ghost valv = value@;
        let n = self.query_params.len();
        let mut i: usize = 0;
        while i < n
            invariant
                n == self.query_params.len(),
                i <= n,
                old(self).params_wf(),
                keyv == key@,
                valv == value@,
                *self == *old(self),
                forall|j: int| 0 <= j < i ==> #[trigger] self.query_params@[j].0@ != key@,
            decreases n - i,
        {
            if self.query_params[i].0 == key {
                let ghost before = *self;
                self.query_params[i] = (key, value);
                proof {
                    let up = self.query_params@;
                    let bp = before.query_params@;
                    assert(bp == old(self).query_params@);
                    assert(up == bp.update(i as int, up[i as int]));
                    assert(up[i as int].0@ == keyv && up[i as int].1@ == valv);
                    assert(bp[i as int].0@ == keyv);
                    assert forall|a: int| 0 <= a < up.len() implies #[trigger] up[a].0@
                        == bp[a].0@ by {
                        if a != i as int {
                            assert(up[a] == bp[a]);
                        }
                    }
                    assert forall|a: int, b: int| 0 <= a < b < up.len() implies #[trigger] up[a].0@
                        != #[trigger] up[b].0@ by {
                        assert(old(self).query_params@[a].0@ != old(self).query_params@[b].0@);
                    }
                    lemma_lookup_at(up, i as int, keyv);
                    assert forall|k: Seq<char>| k != keyv implies #[trigger] self.param_of(k)
                        == old(self).param_of(k) by {
                        assert forall|j: int|
                            0 <= j < bp.len() && #[trigger] bp[j].0@ == k implies bp[j].1@
                            == up[j].1@ by {
                            assert(up[j].0@ == bp[j].0@);
                            if j == i as int {
                                assert(bp[j].0@ == keyv);
                            } else {
                                assert(up[j] == bp[j]);
                            }
                        }
                        lemma_lookup_same(bp, up, k);
                    }
                }
                return ;
            }
            i = i + 1;
        }
        let ghost before = *self;
        self.query_params.push((key, value));
        proof {
            let up = self.query_params@;
            let bp = before.query_params@;
            assert(bp == old(self).query_params@);
            assert(up[n as int].0@ == keyv && up[n as int].1@ == valv);
            assert forall|a: int, b: int| 0 <= a < b < up.len() implies #[trigger] up[a].0@
                != #[trigger] up[b].0@ by {
                if b < n as int {
                    assert(old(self).query_params@[a].0@ != old(self).query_params@[b].0@);
                } else {
                    assert(up[a] == bp[a]);
                    assert(bp[a].0@ != keyv);
                }
            }
            assert(self.params_wf());
            lemma_lookup_at(up, n as int, keyv);
            assert forall|k: Seq<char>| k != keyv implies #[trigger] self.param_of(k) == old(
                self,
            ).param_of(k) by {
                lemma_lookup_push(bp, up[n as int], k);
                assert(bp.push(up[n as int]) =~= up);
            }
        }
    }

    /// The credential kind to try first: the head of the request's declared
    /// preference order, or none for an anonymous call.
    pub fn preferred_kind(&self) -> (r: Option<AccessTokenType>)
        ensures
            self.supported_access_token_types@.len() == 0 ==> r is None,
            self.supported_access_token_types@.len() > 0 ==> r == Some(
                self.supported_access_token_types@[0],
            ),
    {
        if self.supported_access_token_types.len() == 0 {
            None
        } else {
            Some(self.supported_access_token_types[0])
        }
    }

    /// Query-parameter keys are unique: the mapping is well formed.
    pub open spec fn params_wf(self) -> bool {
        forall|a: int, b: int|
            0 <= a < b < self.query_params@.len() ==> #[trigger] self.query_params@[a].0@
                != #[trigger] self.query_params@[b].0@
    }

    /// The value under a query-parameter key, if any.
    pub open spec fn param_of(self, key: Seq<char>) -> Option<Seq<char>> {
        lookup(self.query_params@, key)
    }
}

/// The first value under `key` in an association list, if any.
pub open spec fn lookup(ps: Seq<(String, String)>, key: Seq<char>) -> Option<Seq<char>>
    decreases ps.len(),
{
    if ps.len() == 0 {
        None
    } else if ps[0].0@ == key {
        Some(ps[0].1@)
    } else {
        lookup(ps.drop_first(), key)
    }
}

proof fn lemma_lookup_at(ps: Seq<(String, String)>, i: int, key: Seq<char>)
    requires
        forall|a: int, b: int|
            0 <= a < b < ps.len() ==> #[trigger] ps[a].0@ != #[trigger] ps[b].0@,
        0 <= i < ps.len(),
        ps[i].0@ == key,
    ensures
        lookup(ps, key) == Some(ps[i].1@),
    decreases i,
{
    if i == 0 {
    } else {
        assert(ps[0].0@ != ps[i].0@);
        let rest = ps.drop_first();
        assert forall|a: int, b: int|
            0 <= a < b < rest.len() implies #[trigger] rest[a].0@ != #[trigger] rest[b].0@ by {
            assert(ps[a + 1].0@ != ps[b + 1].0@);
        }
        assert(rest[i - 1] == ps[i]);
        lemma_lookup_at(rest, i - 1, key);
    }
}

proof fn lemma_lookup_same(ps1: Seq<(String, String)>, ps2: Seq<(String, String)>, k: Seq<char>)
    requires
        ps1.len() == ps2.len(),
        forall|j: int| 0 <= j < ps1.len() ==> #[trigger] ps1[j].0@ == ps2[j].0@,
        forall|j: int|
            0 <= j < ps1.len() && #[trigger] ps1[j].0@ == k ==> ps1[j].1@ == ps2[j].1@,
    ensures
        lookup(ps2, k) == lookup(ps1, k),
    decreases ps1.len(),
{
    if ps1.len() == 0 {
    } else if ps1[0].0@ == k {
        assert(ps1[0].1@ == ps2[0].1@);
    } else {
        let r1 = ps1.drop_first();
        let r2 = ps2.drop_first();
        assert forall|j: int| 0 <= j < r1.len() implies #[trigger] r1[j].0@ == r2[j].0@ by {
            assert(ps1[j + 1].0@ == ps2[j + 1].0@);
        }
        assert forall|j: int|
            0 <= j < r1.len() && #[trigger] r1[j].0@ == k implies r1[j].1@ == r2[j].1@ by {
            assert(ps1[j + 1].0@ == r1[j].0@);
            assert(ps1[j + 1].1@ == ps2[j + 1].1@);
        }
        lemma_lookup_same(r1, r2, k);
    }
}

proof fn lemma_lookup_push(ps: Seq<(String, String)>, pair: (String, String), k: Seq<char>)
    requires
        k != pair.0@,
    ensures
        lookup(ps.push(pair), k) == lookup(ps, k),
    decreases ps.len(),
{
    let whole = ps.push(pair);
    assert(whole.len() == ps.len() + 1);
    if ps.len() == 0 {
        assert(whole[0] == pair);
        assert(lookup(whole, k) == lookup(whole.drop_first(), k));
        assert(whole.drop_first() =~= Seq::<(String, String)>::empty());
        assert(lookup(Seq::<(String, String)>::empty(), k) is None);
    } else {
        assert(whole[0] == ps[0]);
        if ps[0].0@ != k {
            assert(lookup(whole, k) == lookup(whole.drop_first(), k));
            assert(lookup(ps, k) == lookup(ps.drop_first(), k));
            assert(whole.drop_first() =~= ps.drop_first().push(pair));
            lemma_lookup_push(ps.drop_first(), pair, k);
        } else {
            assert(lookup(whole, k) == Some(whole[0].1@));
            assert(lookup(ps, k) == Some(ps[0].1@));
        }
    }
}

/// What one HTTP attempt produced, as handed back by the delivery layer.
pub enum HttpOutcome<P> {
    /// No response arrived: connection, timeout or protocol failure.
    Failed { message: String },
    /// A response arrived: its HTTP status, its decoded envelope, and the
    /// typed payload when the body matched the declared shape.
    Responded { http_status: u16, code: i64, msg: String, payload: Option<P> },
}

/// What the transport does after an attempt.
pub enum DispatchDecision<P> {
    /// The call is over, with this result.
    Done(Result<P, TransportError>),
    /// The server rejected the credential on the first attempt: invalidate
    /// the kind just used, refresh, and retry the dispatch exactly once.
    RetryWithFreshCredential,
}

/// Whether an attempt's outcome rejects the attached credential.
pub open spec fn outcome_rejected<P>(o: HttpOutcome<P>) -> bool {
    match o {
        HttpOutcome::Failed { .. } => false,
        HttpOutcome::Responded { http_status, code, .. } => spec_auth_rejected(
            http_status,
            code as int,
        ),
    }
}

/// Decides what follows the attempt numbered `attempt` (counted from zero)
/// whose outcome is `o`.
///
/// A credential rejection on the first attempt earns the one retry; any later
/// rejection is surfaced as `AuthRejected`. A delivery failure is a network
/// error, never retried here. Any other response is classified by its
/// envelope.
pub fn decide<P>(attempt: u8, o: HttpOutcome<P>) -> (d: DispatchDecision<P>)
    ensures
        o matches HttpOutcome::Failed { message } ==> (d matches DispatchDecision::Done(r)
            && r matches Err(TransportError::Network { message: m }) && m == message),
        d is RetryWithFreshCredential <==> retry_granted(attempt as nat, o),
        outcome_rejected(o) && attempt >= 1 ==> (d matches DispatchDecision::Done(r)
            && r matches Err(TransportError::AuthRejected { code: c, message: m })
            && o matches HttpOutcome::Responded { code, msg, .. } && c == code && m == msg),
        o matches HttpOutcome::Responded { http_status, code, msg, payload } ==> (
        !spec_auth_rejected(http_status, code as int) ==> (d matches DispatchDecision::Done(r) && (
        code == SUCCESS_CODE && payload is Some ==> r is Ok && r->Ok_0 == payload->0) && (code
            == SUCCESS_CODE && payload is None ==> r matches Err(TransportError::Decode { .. }))
            && (code != SUCCESS_CODE ==> (r matches Err(TransportError::Business {
            code: c,
            message: m,
        }) && c == code && m == msg)))),
{
    match o {
        HttpOutcome::Failed { message } => DispatchDecision::Done(
            Result::Err(TransportError::Network { message }),
        ),
        HttpOutcome::Responded { http_status, code, msg, payload } => {
            if is_auth_rejected(http_status, code) {
                if attempt == 0 {
                    DispatchDecision::RetryWithFreshCredential
                } else {
                    DispatchDecision::Done(
                        Result::Err(TransportError::AuthRejected { code, message: msg }),
                    )
                }
            } else {
                DispatchDecision::Done(classify_envelope(code, msg, payload))
            }
        },
    }
}

/// Whether an attempt's outcome earns the one retry: only a credential
/// rejection of the very first attempt does.
pub open spec fn retry_granted<P>(attempt: nat, o: HttpOutcome<P>) -> bool {
    outcome_rejected(o) && attempt == 0
}

/// How many HTTP attempts a dispatch makes, given what the first and (if it
/// happens) the second attempt would produce: a second attempt follows only
/// a credential rejection of the first.
pub open spec fn spec_attempts<P>(o1: HttpOutcome<P>, o2: HttpOutcome<P>) -> nat {
    if outcome_rejected(o1) {
        2
    } else {
        1
    }
}

/// How many credential refreshes a dispatch performs: one, before the retry,
/// after a credential rejection of the first attempt; none otherwise.
pub open spec fn spec_refreshes<P>(o1: HttpOutcome<P>, o2: HttpOutcome<P>) -> nat {
    if outcome_rejected(o1) {
        1
    } else {
        0
    }
}

/// Law: the retry is bounded. A dispatch whose attempts are both rejected as
/// credential failures performs exactly two HTTP attempts and exactly one
/// refresh: the first rejection grants the retry, the second grants nothing
/// — by `decide`'s contract it is surfaced as `AuthRejected`, never retried.
pub proof fn lemma_retry_bound<P>(o1: HttpOutcome<P>, o2: HttpOutcome<P>)
    requires
        outcome_rejected(o1),
        outcome_rejected(o2),
    ensures
        spec_attempts(o1, o2) == 2,
        spec_refreshes(o1, o2) == 1,
        retry_granted(0, o1),
        !retry_granted(1, o2),
{
}

} // verus!
