//! The credential store: a cache of the two access-token kinds.
//!
//! A credential is fetched lazily, served from the cache while live, and
//! refreshed when a resolve call finds it expired or invalidated. Refreshing
//! is single-flight per kind: while one refresh is in flight, further resolve
//! calls for the same kind await its result instead of starting their own.
//! The store here is the pure state of that protocol; the embedding
//! application guards it with a lock and performs the issuing HTTP call.

use vstd::prelude::*;

use crate::envelope::TransportError;

verus! {

/// The two independent credential kinds the platform issues.
#[derive(Clone, Copy, PartialEq, Eq, Structural, Debug)]
pub enum AccessTokenType {
    Tenant,
    User,
}

/// One cached access token and the instant, in seconds, at which it expires.
pub struct Credential {
    pub token: String,
    pub expires_at: i64,
}

/// The cache entry for one credential kind.
pub struct CredentialSlot {
    pub cred: Option<Credential>,
    pub refreshing: bool,
}

/// The store: one slot per credential kind.
pub struct CredentialStore {
    pub tenant: CredentialSlot,
    pub user: CredentialSlot,
}

/// What a resolve call is to do next.
pub enum ResolveAction {
    /// A live credential is cached: use this token.
    UseToken(String),
    /// No live credential and no refresh in flight: this caller starts the
    /// one refresh.
    BeginRefresh,
    /// A refresh is already in flight: await its result, start nothing.
    AwaitRefresh,
}

/// The slot of a kind.
pub open spec fn spec_slot(store: CredentialStore, kind: AccessTokenType) -> CredentialSlot {
    match kind {
        AccessTokenType::Tenant => store.tenant,
        AccessTokenType::User => store.user,
    }
}

/// Whether a kind holds a credential that is still live at `now`.
pub open spec fn spec_live(store: CredentialStore, kind: AccessTokenType, now: int) -> bool {
    match spec_slot(store, kind).cred {
        Option::Some(c) => c.expires_at > now,
        Option::None => false,
    }
}

/// The state one resolve step leaves a slot in.
pub open spec fn spec_step_slot(s: CredentialSlot, now: int) -> CredentialSlot {
    if (s.cred is Some && s.cred->0.expires_at > now) || s.refreshing {
        s
    } else {
        CredentialSlot { refreshing: true, ..s }
    }
}

/// The action one resolve step takes on a slot.
pub open spec fn spec_step_action(s: CredentialSlot, now: int) -> ResolveAction {
    if s.cred is Some && s.cred->0.expires_at > now {
        if s.refreshing {
            ResolveAction::AwaitRefresh
        } else {
            ResolveAction::UseToken(s.cred->0.token)
        }
    } else if s.refreshing {
        ResolveAction::AwaitRefresh
    } else {
        ResolveAction::BeginRefresh
    }
}

impl CredentialSlot {
    /// An empty slot: nothing cached, no refresh in flight.
    pub fn new() -> (r: CredentialSlot)
        ensures
            r.cred is None,
            !r.refreshing,
    {
        CredentialSlot { cred: Option::None, refreshing: false }
    }

    fn step(&mut self, now: i64) -> (a: ResolveAction)
        ensures
            *final(self) == spec_step_slot(*old(self), now as int),
            a == spec_step_action(*old(self), now as int),
    {
        match &self.cred {
            Option::Some(c) if c.expires_at > now => {
                if self.refreshing {
                    ResolveAction::AwaitRefresh
                } else {
                    ResolveAction::UseToken(c.token.clone())
                }
            },
            _ => {
                if self.refreshing {
                    ResolveAction::AwaitRefresh
                } else {
                    self.refreshing = true;
                    ResolveAction::BeginRefresh
                }
            },
        }
    }
}

impl CredentialStore {
    /// An empty store: both kinds unpopulated.
    pub fn new() -> (r: CredentialStore)
        ensures
            r.tenant.cred is None,
            !r.tenant.refreshing,
            r.user.cred is None,
            !r.user.refreshing,
    {
        CredentialStore { tenant: CredentialSlot::new(), user: CredentialSlot::new() }
    }

    /// One resolve step for `kind` at instant `now`.
    ///
    /// A live cached credential is served as it stands. Otherwise, the first
    /// caller to arrive begins the refresh — marking it in flight — and
    /// every caller that arrives while it is in flight is told to await it.
    /// The other kind's slot is never touched.
    pub fn resolve_step(&mut self, kind: AccessTokenType, now: i64) -> (a: ResolveAction)
        ensures
            spec_slot(*final(self), kind) == spec_step_slot(
                spec_slot(*old(self), kind),
                now as int,
            ),
            a == spec_step_action(spec_slot(*old(self), kind), now as int),
            spec_live(*old(self), kind, now as int) && !spec_slot(*old(self), kind).refreshing
                ==> a == ResolveAction::UseToken(spec_slot(*old(self), kind).cred->0.token),
            spec_slot(*old(self), kind).refreshing ==> a is AwaitRefresh && *final(self) == *old(
                self,
            ),
            !spec_live(*old(self), kind, now as int) && !spec_slot(*old(self), kind).refreshing
                ==> a is BeginRefresh && spec_slot(*final(self), kind).refreshing,
            kind is Tenant ==> final(self).user == old(self).user,
            kind is User ==> final(self).tenant == old(self).tenant,
    {
        match kind {
            AccessTokenType::Tenant => self.tenant.step(now),
            AccessTokenType::User => self.user.step(now),
        }
    }

    /// Ends the refresh of `kind`: installs the fresh credential, or clears
    /// the slot when issuing failed, and marks no refresh in flight — the
    /// next resolve against a cleared slot begins a new one.
    pub fn complete_refresh(&mut self, kind: AccessTokenType, outcome: Option<Credential>)
        ensures
            spec_slot(*final(self), kind).cred == outcome,
            !spec_slot(*final(self), kind).refreshing,
            kind is Tenant ==> final(self).user == old(self).user,
            kind is User ==> final(self).tenant == old(self).tenant,
    {
        match kind {
            AccessTokenType::Tenant => {
                self.tenant = CredentialSlot { cred: outcome, refreshing: false };
            },
            AccessTokenType::User => {
                self.user = CredentialSlot { cred: outcome, refreshing: false };
            },
        }
    }

    /// Drops the cached credential of `kind`, forcing the next resolve to
    /// refresh instead of serving a stale value; used after the transport
    /// observes an authentication rejection.
    pub fn invalidate(&mut self, kind: AccessTokenType)
        ensures
            spec_slot(*final(self), kind).cred is None,
            spec_slot(*final(self), kind).refreshing == spec_slot(*old(self), kind).refreshing,
            kind is Tenant ==> final(self).user == old(self).user,
            kind is User ==> final(self).tenant == old(self).tenant,
    {
        match kind {
            AccessTokenType::Tenant => {
                self.tenant = CredentialSlot { cred: Option::None, refreshing: self.tenant.refreshing };
            },
            AccessTokenType::User => {
                self.user = CredentialSlot { cred: Option::None, refreshing: self.user.refreshing };
            },
        }
    }
}

/// Maps the outcome of the issuing call to the resolved credential, or to
/// the error the store surfaces when issuing failed.
pub fn credential_or_error(outcome: Option<Credential>, message: String) -> (r: Result<
    Credential,
    TransportError,
>)
    ensures
        outcome matches Some(c) ==> r == Ok::<Credential, TransportError>(c),
        outcome is None ==> (r matches Err(TransportError::AuthUnobtainable { message: m }) && m
            == message),
{
    match outcome {
        Option::Some(c) => Ok(c),
        Option::None => Err(TransportError::AuthUnobtainable { message }),
    }
}

/// The actions a run of consecutive resolve steps takes on one slot, with no
/// refresh completing in between — the picture of concurrent callers
/// contending for the same expired kind, serialized by the store's lock.
pub open spec fn spec_run_actions(s: CredentialSlot, now: int, n: nat) -> Seq<ResolveAction>
    decreases n,
{
    if n == 0 {
        Seq::empty()
    } else {
        seq![spec_step_action(s, now)] + spec_run_actions(spec_step_slot(s, now), now, (n - 1) as nat)
    }
}

/// How many of the actions begin a refresh.
pub open spec fn count_begins(actions: Seq<ResolveAction>) -> nat
    decreases actions.len(),
{
    if actions.len() == 0 {
        0
    } else {
        (if actions[0] is BeginRefresh {
            1nat
        } else {
            0nat
        }) + count_begins(actions.drop_first())
    }
}

proof fn lemma_count_begins_cons(a: ResolveAction, rest: Seq<ResolveAction>)
    ensures
        count_begins(seq![a] + rest) == (if a is BeginRefresh {
            1nat
        } else {
            0nat
        }) + count_begins(rest),
{
    let whole = seq![a] + rest;
    assert(whole.len() == 1 + rest.len());
    assert(whole[0] == a);
    assert(whole.drop_first() =~= rest);
}

proof fn lemma_refreshing_no_begins(s: CredentialSlot, now: int, n: nat)
    requires
        s.refreshing,
    ensures
        count_begins(spec_run_actions(s, now, n)) == 0,
    decreases n,
{
    if n > 0 {
        assert(spec_step_slot(s, now) == s);
        assert(spec_step_action(s, now) is AwaitRefresh);
        lemma_refreshing_no_begins(s, now, (n - 1) as nat);
        lemma_count_begins_cons(
            spec_step_action(s, now),
            spec_run_actions(spec_step_slot(s, now), now, (n - 1) as nat),
        );
    }
}

/// Law: refreshing is single-flight. When any number of resolve calls for
/// the same kind contend over a slot whose credential is expired or absent,
/// exactly one of them begins a refresh; every other call awaits it.
pub proof fn lemma_single_flight(s: CredentialSlot, now: int, n: nat)
    requires
        !(s.cred is Some && s.cred->0.expires_at > now),
        !s.refreshing,
        n >= 1,
    ensures
        count_begins(spec_run_actions(s, now, n)) == 1,
{
    assert(spec_step_action(s, now) is BeginRefresh);
    let s2 = spec_step_slot(s, now);
    assert(s2.refreshing);
    lemma_refreshing_no_begins(s2, now, (n - 1) as nat);
    lemma_count_begins_cons(spec_step_action(s, now), spec_run_actions(s2, now, (n - 1) as nat));
}

} // verus!
