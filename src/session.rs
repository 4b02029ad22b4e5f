use vstd::prelude::*;
use vstd::string::*;

use crate::wire::WireValue;

verus! {

/// The kind of a wire value, as a caller declares what it expects back.
#[derive(Debug, Clone, Copy, PartialEq, Eq, Structural)]
pub enum Shape {
    Str,
    Int,
    Bool,
    DateTime,
    List,
    Struct,
}

pub open spec fn shape_of(v: WireValue) -> Shape {
    match v {
        WireValue::Str(_) => Shape::Str,
        WireValue::Int(_) => Shape::Int,
        WireValue::Bool(_) => Shape::Bool,
        WireValue::DateTime(_) => Shape::DateTime,
        WireValue::List(_) => Shape::List,
        WireValue::Struct(_) => Shape::Struct,
    }
}

/// The kind of a wire value.
pub fn shape(v: &WireValue) -> (r: Shape)
    ensures
        r == shape_of(*v),
{
    match v {
        WireValue::Str(_) => Shape::Str,
        WireValue::Int(_) => Shape::Int,
        WireValue::Bool(_) => Shape::Bool,
        WireValue::DateTime(_) => Shape::DateTime,
        WireValue::List(_) => Shape::List,
        WireValue::Struct(_) => Shape::Struct,
    }
}

/// Why a remote call did not give the value its caller asked for.
#[derive(Debug)]
pub enum SessionError {
    /// No session: no login yet, a rejected login, or a closed session.
    AuthenticationError,
    /// The transport failed.
    RemoteCallError { method: String, cause: String },
    /// The result is not of the kind the caller declared.
    UnexpectedShape { method: String, expected: Shape, actual: Shape },
}

/// A request to the remote service: a method name and its positional
/// arguments, the session token first where there is one.
#[derive(Debug)]
pub struct RemoteCall {
    pub method: String,
    pub args: Vec<WireValue>,
}

/// Where a session stands in its lifecycle.
#[derive(Debug)]
pub enum SessionPhase {
    /// Not logged in yet.
    Fresh,
    /// Logged in, with this token.
    Active(String),
    /// Logged out, or never logged in and shut down.
    Closed,
}

/// The session with the remote service.
#[derive(Debug)]
pub struct Session {
    pub endpoint: String,
    pub phase: SessionPhase,
}

pub open spec fn login_method() -> Seq<char> {
    "auth.login"@
}

pub open spec fn logout_method() -> Seq<char> {
    "auth.logout"@
}

impl Session {
    /// A session that has not logged in yet.
    pub fn new(endpoint: String) -> (s: Session)
        ensures
            s.endpoint == endpoint,
            s.phase is Fresh,
    {
        Session { endpoint, phase: SessionPhase::Fresh }
    }

    pub open spec fn is_active(self) -> bool {
        self.phase is Active
    }

    /// The login request: the two credentials, with no token.
    pub fn login_request(user: &str, password: &str) -> (c: RemoteCall)
        ensures
            c.method@ == login_method(),
            c.args@.len() == 2,
            c.args@[0] matches WireValue::Str(u) && u@ == user@,
            c.args@[1] matches WireValue::Str(p) && p@ == password@,
    {
        let args = vec![
            WireValue::Str(String::from_str(user)),
            WireValue::Str(String::from_str(password)),
        ];
        RemoteCall { method: String::from_str("auth.login"), args }
    }

    /// Takes in the reply to the login request. A non-empty string is the
    /// token and opens the session; any other value fails with
    /// `AuthenticationError`, and so does a login on a session that is not
    /// fresh. A transport failure is a `RemoteCallError`.
    pub fn complete_login(&mut self, reply: Result<WireValue, String>) -> (r: Result<
        (),
        SessionError,
    >)
        ensures
            final(self).endpoint == old(self).endpoint,
            old(self).phase is Fresh && (reply matches Ok(WireValue::Str(t)) && t@.len() > 0)
                ==> r is Ok && final(self).phase == SessionPhase::Active(reply->Ok_0->Str_0),
            !(old(self).phase is Fresh) ==> (r matches Err(SessionError::AuthenticationError))
                && final(self).phase == old(self).phase,
            old(self).phase is Fresh && (reply is Ok && !(reply matches Ok(WireValue::Str(t))
                && t@.len() > 0)) ==> (r matches Err(SessionError::AuthenticationError))
                && final(self).phase is Fresh,
            old(self).phase is Fresh && reply is Err ==> (r matches Err(
                SessionError::RemoteCallError { method, cause },
            ) && method@ == login_method() && cause == reply->Err_0) && final(self).phase is Fresh,
            stage_of(final(self).phase) == stage_after(
                stage_of(old(self).phase),
                SessionOp::Login(r is Ok),
            ),
    {
        if !matches!(self.phase, SessionPhase::Fresh) {
            return Err(SessionError::AuthenticationError);
        }
        match reply {
            Ok(WireValue::Str(t)) => {
                if !t.as_str().is_empty() {
                    self.phase = SessionPhase::Active(t);
                    Ok(())
                } else {
                    Err(SessionError::AuthenticationError)
                }
            },
            Ok(_) => Err(SessionError::AuthenticationError),
            Err(cause) => Err(
                SessionError::RemoteCallError { method: String::from_str("auth.login"), cause },
            ),
        }
    }

    /// The request for `method`: the session token, then `args`. Fails with
    /// `AuthenticationError` unless the session is logged in.
    pub fn invoke(&self, method: &str, args: Vec<WireValue>) -> (r: Result<
        RemoteCall,
        SessionError,
    >)
        ensures
            r is Ok <==> self.is_active(),
            r matches Err(e) ==> e is AuthenticationError,
            r matches Ok(c) ==> c.method@ == method@ && c.args@ == seq![
                WireValue::Str(self.phase->Active_0),
            ] + args@,
    {
        match &self.phase {
            SessionPhase::Active(token) => {
                let mut all = vec![WireValue::Str(token.clone())];
                let mut rest = args;
                all.append(&mut rest);
                Ok(RemoteCall { method: String::from_str(method), args: all })
            },
            _ => Err(SessionError::AuthenticationError),
        }
    }

    /// Closes the session. The first call on a logged-in session hands out
    /// the logout request; every later call, and a call on a session that
    /// never logged in, hands out nothing. The session is closed afterwards.
    pub fn logout(&mut self) -> (r: Option<RemoteCall>)
        ensures
            final(self).endpoint == old(self).endpoint,
            final(self).phase is Closed,
            r is Some <==> old(self).is_active(),
            r matches Some(c) ==> c.method@ == logout_method() && c.args@ == seq![
                WireValue::Str(old(self).phase->Active_0),
            ],
            stage_of(final(self).phase) == stage_after(stage_of(old(self).phase), SessionOp::Logout),
            (r is Some) == (stage_of(old(self).phase) is Active),
    {
        let mut phase = SessionPhase::Closed;
        std::mem::swap(&mut self.phase, &mut phase);
        match phase {
            SessionPhase::Active(token) => Some(
                RemoteCall {
                    method: String::from_str("auth.logout"),
                    args: vec![WireValue::Str(token)],
                },
            ),
            _ => None,
        }
    }
}

/// Checks the reply to a call of `method` against the kind its caller
/// declared: a transport failure is a `RemoteCallError`, a value of another
/// kind an `UnexpectedShape`; nothing is coerced.
pub fn check_reply(method: &str, expected: Shape, reply: Result<WireValue, String>) -> (r: Result<
    WireValue,
    SessionError,
>)
    ensures
        reply is Ok && shape_of(reply->Ok_0) == expected ==> (r matches Ok(v) && v
            == reply->Ok_0),
        reply is Ok && shape_of(reply->Ok_0) != expected ==> (r matches Err(
            SessionError::UnexpectedShape { method: m, expected: x, actual: a },
        ) && m@ == method@ && x == expected && a == shape_of(reply->Ok_0)),
        reply is Err ==> (r matches Err(SessionError::RemoteCallError { method: m, cause: c })
            && m@ == method@ && c == reply->Err_0),
{
    match reply {
        Ok(v) => {
            let actual = shape(&v);
            if actual == expected {
                Ok(v)
            } else {
                Err(SessionError::UnexpectedShape { method: String::from_str(method), expected, actual })
            }
        },
        Err(cause) => Err(SessionError::RemoteCallError { method: String::from_str(method), cause }),
    }
}

/// The lifecycle stages of a session, without the token.
pub enum Stage {
    Fresh,
    Active,
    Closed,
}

/// An operation on a session: a login that the service accepted or
/// rejected, or a logout.
pub enum SessionOp {
    Login(bool),
    Logout,
}

pub open spec fn stage_after(st: Stage, op: SessionOp) -> Stage {
    match (st, op) {
        (Stage::Fresh, SessionOp::Login(true)) => Stage::Active,
        (_, SessionOp::Logout) => Stage::Closed,
        _ => st,
    }
}

/// The stage after a sequence of operations.
pub open spec fn stage_after_all(st: Stage, ops: Seq<SessionOp>) -> Stage
    decreases ops.len(),
{
    if ops.len() == 0 {
        st
    } else {
        stage_after_all(stage_after(st, ops[0]), ops.drop_first())
    }
}

/// The logout requests handed out over a sequence of operations.
pub open spec fn logout_requests(st: Stage, ops: Seq<SessionOp>) -> nat
    decreases ops.len(),
{
    if ops.len() == 0 {
        0
    } else {
        (if st is Active && ops[0] is Logout {
            1nat
        } else {
            0nat
        }) + logout_requests(stage_after(st, ops[0]), ops.drop_first())
    }
}

/// `stage` is the lifecycle stage of `phase`.
pub open spec fn stage_of(phase: SessionPhase) -> Stage {
    match phase {
        SessionPhase::Fresh => Stage::Fresh,
        SessionPhase::Active(_) => Stage::Active,
        SessionPhase::Closed => Stage::Closed,
    }
}

/// Until a login succeeds, a session is never active, so every `invoke`
/// fails with `AuthenticationError`, whatever rejected logins and logouts
/// came before.
pub proof fn lemma_no_invoke_before_login(ops: Seq<SessionOp>)
    requires
        forall|i: int| 0 <= i < ops.len() ==> !(#[trigger] ops[i] matches SessionOp::Login(true)),
    ensures
        !(stage_after_all(Stage::Fresh, ops) is Active),
{
    lemma_never_active(Stage::Fresh, ops);
}

proof fn lemma_never_active(st: Stage, ops: Seq<SessionOp>)
    requires
        !(st is Active),
        forall|i: int| 0 <= i < ops.len() ==> !(#[trigger] ops[i] matches SessionOp::Login(true)),
    ensures
        !(stage_after_all(st, ops) is Active),
    decreases ops.len(),
{
    if ops.len() > 0 {
        let rest = ops.drop_first();
        assert(!(ops[0] matches SessionOp::Login(true)));
        assert forall|i: int| 0 <= i < rest.len() implies !(#[trigger] rest[i] matches SessionOp::Login(
            true,
        )) by {
            assert(rest[i] == ops[i + 1]);
        }
        lemma_never_active(stage_after(st, ops[0]), rest);
    }
}

proof fn lemma_closed_hands_out_none(ops: Seq<SessionOp>)
    ensures
        logout_requests(Stage::Closed, ops) == 0,
    decreases ops.len(),
{
    if ops.len() > 0 {
        lemma_closed_hands_out_none(ops.drop_first());
    }
}

/// Whatever the operations and the stage they start from, at most one
/// logout request is handed out.
pub proof fn lemma_logout_at_most_once(st: Stage, ops: Seq<SessionOp>)
    ensures
        logout_requests(st, ops) <= 1,
    decreases ops.len(),
{
    if ops.len() > 0 {
        let next = stage_after(st, ops[0]);
        if st is Active && ops[0] is Logout {
            lemma_closed_hands_out_none(ops.drop_first());
        } else {
            lemma_logout_at_most_once(next, ops.drop_first());
        }
    }
}

/// A logged-in session that is logged out at some point, whatever else is
/// done with it, hands out exactly one logout request.
pub proof fn lemma_logout_exactly_once(ops: Seq<SessionOp>)
    requires
        exists|i: int| 0 <= i < ops.len() && #[trigger] ops[i] is Logout,
    ensures
        logout_requests(Stage::Active, ops) == 1,
    decreases ops.len(),
{
    let rest = ops.drop_first();
    if ops[0] is Logout {
        lemma_closed_hands_out_none(rest);
    } else {
        let i = choose|i: int| 0 <= i < ops.len() && #[trigger] ops[i] is Logout;
        assert(rest[i - 1] == ops[i]);
        lemma_logout_exactly_once(rest);
    }
}

} // verus!
