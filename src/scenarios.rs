use vstd::prelude::*;
use vstd::string::*;

use crate::lookup::{
    build_host_entitlement, entitlement_scan, event_scan, exists_kiwi_image, exists_kiwi_profile,
    exists_system_group, first_id, get_int_field, get_system_id, has_buildhost_entitlement,
    image_outcome, image_outcome_of, int_field, scan, status_highstate, status_kiwi_image,
    str_field, Scan,
};
use crate::mapper::{formula_payload, json_document, mirrors, MapError, MAX_DOCUMENT_CHARS};
use crate::poller::{PollAction, PollOutcome, PollPolicy, PollState, Poller};
use crate::session::{SessionError, Shape};
use crate::wire::WireValue;

verus! {

/// A remote call that a scenario asks for: the method, its arguments after
/// the session token, and the kind of value it expects back.
#[derive(Debug)]
pub struct Request {
    pub method: String,
    pub args: Vec<WireValue>,
    pub expect: Shape,
}

/// Why a scenario stopped before its end.
#[derive(Debug)]
pub enum Fault {
    /// A reply was not of the structure the step reads.
    Session(SessionError),
    /// A formula's configuration could not be mapped.
    Config(MapError),
    /// The service answered this method with something other than success.
    Rejected(String),
    /// A step needs a system or a group that no earlier step resolved.
    Unresolved,
    /// An image exists with a status that the scenario does not know.
    UnknownImageStatus(String),
    /// A long-running job ended in this state other than success.
    Job(PollState),
    /// The driver answered with a reply of the wrong kind.
    Protocol,
    /// The scheduling time is not an ISO-8601 date and time.
    BadTime,
}

/// Whether iso8601 reads `text` as a date and time.
pub uninterp spec fn iso8601_datetime_ok(text: Seq<char>) -> bool;

/// Relies on iso8601::datetime: whether it accepts `text` depends on the
/// text alone.
#[verifier::external_body]
fn iso8601_accepts(text: &str) -> (r: bool)
    ensures
        r == iso8601_datetime_ok(text@),
{
    iso8601::datetime(text).is_ok()
}

/// The values an image profile is created with.
#[derive(Debug)]
pub struct ProfileSpec {
    pub label: String,
    pub image_store: String,
    pub path: String,
    pub activation_key: String,
}

/// A resource that an idempotent step rebuilds: a system group by name, or
/// a kiwi image profile by label.
#[derive(Debug)]
pub enum EnsureTarget {
    Group(String),
    Profile(ProfileSpec),
}

/// Where an idempotent step stands.
#[derive(Debug, Clone, Copy, PartialEq, Eq, Structural)]
pub enum EnsureStage {
    Start,
    Listing,
    Deleting,
    Creating,
    Done,
    Failed,
}

/// The calls an idempotent step makes.
#[derive(Debug, Clone, Copy, PartialEq, Eq, Structural)]
pub enum EnsureCall {
    List,
    Delete,
    Create,
}

/// An idempotent provisioning step: look the resource up by name; delete
/// it if it is there; create it afresh.
#[derive(Debug)]
pub struct EnsureStep {
    pub target: EnsureTarget,
    pub stage: EnsureStage,
    /// The id of the created group.
    pub created_id: Option<i64>,
}

/// The name a target is looked up by.
pub open spec fn target_name(t: EnsureTarget) -> Seq<char> {
    match t {
        EnsureTarget::Group(name) => name@,
        EnsureTarget::Profile(p) => p.label@,
    }
}

/// The member of a listed item that holds a target's name.
pub open spec fn target_key(t: EnsureTarget) -> Seq<char> {
    match t {
        EnsureTarget::Group(_) => "name"@,
        EnsureTarget::Profile(_) => "label"@,
    }
}

/// What a listing says of the target: `Some(true)` where it is there,
/// `Some(false)` where it is not, `None` where the listing is malformed.
pub open spec fn listing_shows(t: EnsureTarget, listing: WireValue) -> Option<bool> {
    match scan(listing, target_key(t), target_name(t)) {
        Scan::Found(_) => Some(true),
        Scan::Absent => Some(false),
        Scan::Malformed => None,
    }
}

/// The reply to a creation is a success: for a group, a structure with an
/// integer `id`; for a profile, the integer 1.
pub open spec fn creation_ok(t: EnsureTarget, reply: WireValue) -> bool {
    match t {
        EnsureTarget::Group(_) => int_field(reply, "id"@) is Some,
        EnsureTarget::Profile(_) => reply == WireValue::Int(1),
    }
}

/// The stage that follows `stage` on `reply`, and the call made then.
pub open spec fn ensure_next(stage: EnsureStage, t: EnsureTarget, reply: WireValue) -> (
    EnsureStage,
    Option<EnsureCall>,
) {
    match stage {
        EnsureStage::Listing => match listing_shows(t, reply) {
            Some(true) => (EnsureStage::Deleting, Some(EnsureCall::Delete)),
            Some(false) => (EnsureStage::Creating, Some(EnsureCall::Create)),
            None => (EnsureStage::Failed, None),
        },
        EnsureStage::Deleting => if reply == WireValue::Int(1) {
            (EnsureStage::Creating, Some(EnsureCall::Create))
        } else {
            (EnsureStage::Failed, None)
        },
        EnsureStage::Creating => if creation_ok(t, reply) {
            (EnsureStage::Done, None)
        } else {
            (EnsureStage::Failed, None)
        },
        _ => (stage, None),
    }
}

/// `req` is the request for `call` on target `t`.
pub open spec fn ensure_request(t: EnsureTarget, call: EnsureCall, req: Request) -> bool {
    match (t, call) {
        (EnsureTarget::Group(name), EnsureCall::List) => req.method@
            == "systemgroup.listAllGroups"@ && req.args@.len() == 0 && req.expect == Shape::List,
        (EnsureTarget::Group(name), EnsureCall::Delete) => req.method@ == "systemgroup.delete"@
            && req.args@.len() == 1 && req.args@[0] == WireValue::Str(name) && req.expect
            == Shape::Int,
        (EnsureTarget::Group(name), EnsureCall::Create) => req.method@ == "systemgroup.create"@
            && req.args@.len() == 2 && req.args@[0] == WireValue::Str(name) && req.args@[1]
            == WireValue::Str(name) && req.expect == Shape::Struct,
        (EnsureTarget::Profile(p), EnsureCall::List) => req.method@
            == "image.profile.listImageProfiles"@ && req.args@.len() == 0 && req.expect
            == Shape::List,
        (EnsureTarget::Profile(p), EnsureCall::Delete) => req.method@ == "image.profile.delete"@
            && req.args@.len() == 1 && req.args@[0] == WireValue::Str(p.label) && req.expect
            == Shape::Int,
        (EnsureTarget::Profile(p), EnsureCall::Create) => req.method@ == "image.profile.create"@
            && req.args@.len() == 5 && req.args@[0] == WireValue::Str(p.label) && (
        req.args@[1] matches WireValue::Str(k) && k@ == "kiwi"@) && req.args@[2]
            == WireValue::Str(p.image_store) && req.args@[3] == WireValue::Str(p.path)
            && req.args@[4] == WireValue::Str(p.activation_key) && req.expect == Shape::Int,
    }
}

fn text(s: &str) -> (w: WireValue)
    ensures
        w matches WireValue::Str(t) && t@ == s@,
{
    WireValue::Str(String::from_str(s))
}

fn request(method: &str, args: Vec<WireValue>, expect: Shape) -> (r: Request)
    ensures
        r.method@ == method@,
        r.args == args,
        r.expect == expect,
{
    Request { method: String::from_str(method), args, expect }
}

impl EnsureStep {
    /// A step that has made no call yet.
    pub fn new(target: EnsureTarget) -> (s: EnsureStep)
        ensures
            s.target == target,
            s.stage == EnsureStage::Start,
            s.created_id is None,
    {
        EnsureStep { target, stage: EnsureStage::Start, created_id: None }
    }

    fn call(&self, call: EnsureCall) -> (r: Request)
        ensures
            ensure_request(self.target, call, r),
    {
        match (&self.target, call) {
            (EnsureTarget::Group(_), EnsureCall::List) => request(
                "systemgroup.listAllGroups",
                Vec::new(),
                Shape::List,
            ),
            (EnsureTarget::Group(name), EnsureCall::Delete) => request(
                "systemgroup.delete",
                vec![WireValue::Str(name.clone())],
                Shape::Int,
            ),
            (EnsureTarget::Group(name), EnsureCall::Create) => request(
                "systemgroup.create",
                vec![WireValue::Str(name.clone()), WireValue::Str(name.clone())],
                Shape::Struct,
            ),
            (EnsureTarget::Profile(_), EnsureCall::List) => request(
                "image.profile.listImageProfiles",
                Vec::new(),
                Shape::List,
            ),
            (EnsureTarget::Profile(p), EnsureCall::Delete) => request(
                "image.profile.delete",
                vec![WireValue::Str(p.label.clone())],
                Shape::Int,
            ),
            (EnsureTarget::Profile(p), EnsureCall::Create) => request(
                "image.profile.create",
                vec![
                    WireValue::Str(p.label.clone()),
                    text("kiwi"),
                    WireValue::Str(p.image_store.clone()),
                    WireValue::Str(p.path.clone()),
                    WireValue::Str(p.activation_key.clone()),
                ],
                Shape::Int,
            ),
        }
    }

    /// Starts the step: the listing call.
    pub fn start(&mut self) -> (r: Request)
        requires
            old(self).stage == EnsureStage::Start,
        ensures
            final(self).target == old(self).target,
            final(self).created_id == old(self).created_id,
            final(self).stage == EnsureStage::Listing,
            ensure_request(old(self).target, EnsureCall::List, r),
    {
        self.stage = EnsureStage::Listing;
        self.call(EnsureCall::List)
    }

    /// Takes in the reply to the last call, moves on as `ensure_next` says,
    /// and hands out the next call; `Ok(None)` once the resource is created.
    pub fn advance(&mut self, reply: &WireValue) -> (r: Result<Option<Request>, Fault>)
        requires
            old(self).stage == EnsureStage::Listing || old(self).stage == EnsureStage::Deleting
                || old(self).stage == EnsureStage::Creating,
        ensures
            final(self).target == old(self).target,
            final(self).stage == ensure_next(old(self).stage, old(self).target, *reply).0,
            ensure_next(old(self).stage, old(self).target, *reply).1 matches Some(c) ==> (r matches Ok(
                Some(req),
            ) && ensure_request(old(self).target, c, req)),
            final(self).stage == EnsureStage::Done ==> r matches Ok(None),
            final(self).stage == EnsureStage::Failed ==> r is Err,
            final(self).stage == EnsureStage::Done && old(self).target is Group
                ==> final(self).created_id == int_field(*reply, "id"@),
    {
        match self.stage {
            EnsureStage::Listing => {
                let present = match &self.target {
                    EnsureTarget::Group(name) => exists_system_group(name.as_str(), reply),
                    EnsureTarget::Profile(p) => exists_kiwi_profile(p.label.as_str(), reply),
                };
                match present {
                    Ok(true) => {
                        self.stage = EnsureStage::Deleting;
                        Ok(Some(self.call(EnsureCall::Delete)))
                    },
                    Ok(false) => {
                        self.stage = EnsureStage::Creating;
                        Ok(Some(self.call(EnsureCall::Create)))
                    },
                    Err(e) => {
                        self.stage = EnsureStage::Failed;
                        Err(Fault::Session(e))
                    },
                }
            },
            EnsureStage::Deleting => {
                if matches!(reply, WireValue::Int(1)) {
                    self.stage = EnsureStage::Creating;
                    Ok(Some(self.call(EnsureCall::Create)))
                } else {
                    self.stage = EnsureStage::Failed;
                    Err(self.rejected(EnsureCall::Delete))
                }
            },
            _ => {
                let ok = match &self.target {
                    EnsureTarget::Group(_) => {
                        let id = get_int_field(reply, "id");
                        self.created_id = id;
                        id.is_some()
                    },
                    EnsureTarget::Profile(_) => matches!(reply, WireValue::Int(1)),
                };
                if ok {
                    self.stage = EnsureStage::Done;
                    Ok(None)
                } else {
                    self.stage = EnsureStage::Failed;
                    Err(self.rejected(EnsureCall::Create))
                }
            },
        }
    }

    fn rejected(&self, call: EnsureCall) -> Fault {
        let req = self.call(call);
        Fault::Rejected(req.method)
    }
}

/// The calls an idempotent step makes, from `stage` on, when the service
/// gives `replies` in order.
pub open spec fn ensure_calls(stage: EnsureStage, t: EnsureTarget, replies: Seq<WireValue>) -> Seq<
    EnsureCall,
>
    decreases replies.len(),
{
    if replies.len() == 0 || !(stage == EnsureStage::Listing || stage == EnsureStage::Deleting
        || stage == EnsureStage::Creating) {
        Seq::empty()
    } else {
        let (next, call) = ensure_next(stage, t, replies[0]);
        let rest = ensure_calls(next, t, replies.drop_first());
        match call {
            Some(c) => seq![c] + rest,
            None => rest,
        }
    }
}

/// Ensuring a resource that already exists: once the listing shows it, the
/// step deletes it exactly once and then creates it exactly once, and it
/// makes no further call, whatever else the service would say.
pub proof fn lemma_existing_resource_rebuilt_once(t: EnsureTarget, replies: Seq<WireValue>)
    requires
        replies.len() >= 3,
        listing_shows(t, replies[0]) == Some(true),
        replies[1] == WireValue::Int(1),
        creation_ok(t, replies[2]),
    ensures
        ensure_calls(EnsureStage::Listing, t, replies) == seq![
            EnsureCall::Delete,
            EnsureCall::Create,
        ],
{
    let r1 = replies.drop_first();
    let r2 = r1.drop_first();
    let r3 = r2.drop_first();
    assert(r1[0] == replies[1]);
    assert(r2[0] == replies[2]);
    assert(ensure_calls(EnsureStage::Done, t, r3) == Seq::<EnsureCall>::empty());
    assert(ensure_calls(EnsureStage::Creating, t, r2) =~= Seq::<EnsureCall>::empty());
    assert(ensure_calls(EnsureStage::Deleting, t, r1) =~= seq![EnsureCall::Create]);
    assert(ensure_calls(EnsureStage::Listing, t, replies) =~= seq![
        EnsureCall::Delete,
        EnsureCall::Create,
    ]);
}

/// The number of times `c` occurs in `calls`.
pub open spec fn count_calls(calls: Seq<EnsureCall>, c: EnsureCall) -> nat
    decreases calls.len(),
{
    if calls.len() == 0 {
        0
    } else {
        (if calls[0] == c {
            1nat
        } else {
            0nat
        }) + count_calls(calls.drop_first(), c)
    }
}

proof fn lemma_count_prepend(c: EnsureCall, rest: Seq<EnsureCall>, x: EnsureCall)
    ensures
        count_calls(seq![c] + rest, x) == (if c == x {
            1nat
        } else {
            0nat
        }) + count_calls(rest, x),
{
    assert((seq![c] + rest).drop_first() =~= rest);
}

/// Whatever the service replies, an idempotent step creates at most once
/// and deletes at most once; from `Creating` or later it deletes no more.
pub proof fn lemma_at_most_one_create(stage: EnsureStage, t: EnsureTarget, replies: Seq<WireValue>)
    ensures
        count_calls(ensure_calls(stage, t, replies), EnsureCall::Create) <= 1,
        count_calls(ensure_calls(stage, t, replies), EnsureCall::Delete) <= 1,
        !(stage == EnsureStage::Listing) ==> count_calls(
            ensure_calls(stage, t, replies),
            EnsureCall::Delete,
        ) == 0,
        stage == EnsureStage::Creating || stage == EnsureStage::Done || stage
            == EnsureStage::Failed || stage == EnsureStage::Start ==> count_calls(
            ensure_calls(stage, t, replies),
            EnsureCall::Create,
        ) == 0,
    decreases replies.len(),
{
    if replies.len() > 0 && (stage == EnsureStage::Listing || stage == EnsureStage::Deleting
        || stage == EnsureStage::Creating) {
        let (next, call) = ensure_next(stage, t, replies[0]);
        let rest = ensure_calls(next, t, replies.drop_first());
        lemma_at_most_one_create(next, t, replies.drop_first());
        if let Some(c) = call {
            lemma_count_prepend(c, rest, EnsureCall::Create);
            lemma_count_prepend(c, rest, EnsureCall::Delete);
        }
    } else {
        assert(count_calls(Seq::<EnsureCall>::empty(), EnsureCall::Create) == 0);
        assert(count_calls(Seq::<EnsureCall>::empty(), EnsureCall::Delete) == 0);
    }
}

impl ProfileSpec {
    /// A copy of these values.
    pub fn duplicate(&self) -> (r: ProfileSpec)
        ensures
            r == *self,
    {
        ProfileSpec {
            label: self.label.clone(),
            image_store: self.image_store.clone(),
            path: self.path.clone(),
            activation_key: self.activation_key.clone(),
        }
    }
}

impl EnsureTarget {
    /// A copy of this target.
    pub fn duplicate(&self) -> (r: EnsureTarget)
        ensures
            r == *self,
    {
        match self {
            EnsureTarget::Group(name) => EnsureTarget::Group(name.clone()),
            EnsureTarget::Profile(p) => EnsureTarget::Profile(p.duplicate()),
        }
    }
}

/// One step of a provisioning scenario.
#[derive(Debug)]
pub enum Step {
    /// Look up the id of the named system; later steps act on it.
    ResolveSystem(String),
    /// Give the resolved system the build host entitlement unless it has it.
    EnsureEntitlement,
    /// Rebuild a group or an image profile; a group's id is kept for later
    /// steps.
    Ensure(EnsureTarget),
    /// Bind this formula to the group.
    BindGroupFormula(String),
    /// Bind these formulas to the system.
    BindSystemFormulas(Vec<String>),
    /// Push the named formula's configuration to the group.
    PushGroupFormula(String),
    /// Push the named formula's configuration to the system.
    PushSystemFormula(String),
    /// Apply the highstate to the system and poll until it ends.
    ApplyHighstate(PollPolicy),
    /// Build the image of this profile on the system, rebuilding an
    /// existing one, and poll until the build ends.
    BuildImage(String, PollPolicy),
}

/// What the driver hands to the workflow: the start signal, a call's
/// result, the end of a sleep, the operator's answer, or a file's text.
#[derive(Debug)]
pub enum Reply {
    Begin,
    Value(WireValue),
    Slept,
    Answer(bool),
    Text(String),
}

/// What the workflow asks the driver to do next.
#[derive(Debug)]
pub enum Action {
    /// Make this remote call and reply with its value.
    Call(Request),
    /// Sleep this many seconds and reply `Slept`.
    Sleep(u64),
    /// Ask the operator whether to delete the image with this status and
    /// build it again; reply with the answer.
    Confirm(String),
    /// Read this configuration file and reply with its text.
    Load(String),
    /// The scenario is complete.
    Done,
    /// The scenario stopped on this fault.
    Fail(Fault),
}

/// Which status a poll step queries.
#[derive(Debug, Clone, Copy, PartialEq, Eq, Structural)]
pub enum PollKind {
    Highstate,
    Image,
}

/// Where the current step stands.
#[derive(Debug)]
pub enum Phase {
    Ready,
    AwaitSystem,
    AwaitEntitlements,
    AwaitEntitlementAdded,
    Ensuring(EnsureStep),
    AwaitBound(String),
    AwaitFile(String, bool),
    AwaitPushed(String),
    AwaitEvent(PollPolicy),
    Polling(PollKind, Poller, i64),
    Waiting(PollKind, Poller, i64),
    AwaitImages(String, PollPolicy),
    AwaitImageStatus(String, i64, PollPolicy),
    AwaitConfirm(String, i64, PollPolicy),
    AwaitImageDeleted(String, PollPolicy),
    AwaitImageScheduled(String, PollPolicy),
    AwaitImageListed(String, PollPolicy),
    Finished,
    Failed,
}

/// A scenario in progress: its steps, the current one, and what earlier
/// steps resolved.
#[derive(Debug)]
pub struct Workflow {
    pub steps: Vec<Step>,
    pub index: usize,
    pub phase: Phase,
    pub system_id: Option<i64>,
    pub group_id: Option<i64>,
    /// The ISO-8601 time from which scheduled jobs may run.
    pub now: String,
}

/// `a` is a call of `method` with the single argument `arg`, expecting
/// `expect` back.
pub open spec fn calls1(a: Action, method: Seq<char>, arg: WireValue, expect: Shape) -> bool {
    a matches Action::Call(r) && r.method@ == method && r.args@.len() == 1 && r.args@[0] == arg
        && r.expect == expect
}

/// `a` is how `step` opens and `ph` the phase it opens into, given the
/// system and group that earlier steps resolved and the scheduling time
/// `now`: its first remote call, or the file it reads first, or
/// `Unresolved` where it lacks the system or group it acts on.
pub open spec fn step_opening(
    step: Step,
    sid: Option<i64>,
    gid: Option<i64>,
    now: String,
    a: Action,
    ph: Phase,
) -> bool {
    match step {
        Step::ResolveSystem(n) => calls1(a, "system.getId"@, WireValue::Str(n), Shape::List)
            && ph is AwaitSystem,
        Step::EnsureEntitlement => match sid {
            Some(id) => calls1(a, "system.getEntitlements"@, WireValue::Int(id), Shape::List)
                && ph is AwaitEntitlements,
            None => a == Action::Fail(Fault::Unresolved) && ph is Failed,
        },
        Step::Ensure(t) => (a matches Action::Call(r) && ensure_request(t, EnsureCall::List, r))
            && (ph matches Phase::Ensuring(st) && st.target == t && st.stage
            == EnsureStage::Listing),
        Step::BindGroupFormula(name) => match gid {
            Some(g) => (a matches Action::Call(r) && r.method@ == "formula.setFormulasOfGroup"@
                && r.args@.len() == 2 && r.args@[0] == WireValue::Int(g) && (
            r.args@[1] matches WireValue::List(l) && l@.len() == 1 && l@[0] == WireValue::Str(name))
                && r.expect == Shape::Int) && (ph matches Phase::AwaitBound(m) && m@
                == "formula.setFormulasOfGroup"@),
            None => a == Action::Fail(Fault::Unresolved) && ph is Failed,
        },
        Step::BindSystemFormulas(names) => match sid {
            Some(id) => (a matches Action::Call(r) && r.method@ == "formula.setFormulasOfServer"@
                && r.args@.len() == 2 && r.args@[0] == WireValue::Int(id) && (
            r.args@[1] matches WireValue::List(l) && l@.len() == names@.len() && forall|i: int|
                0 <= i < names@.len() ==> #[trigger] l@[i] == WireValue::Str(names@[i]))
                && r.expect == Shape::Int) && (ph matches Phase::AwaitBound(m) && m@
                == "formula.setFormulasOfServer"@),
            None => a == Action::Fail(Fault::Unresolved) && ph is Failed,
        },
        Step::PushGroupFormula(name) => match gid {
            Some(_) => (a matches Action::Load(f) && f@ == name@ + ".json"@) && ph
                == Phase::AwaitFile(name, true),
            None => a == Action::Fail(Fault::Unresolved) && ph is Failed,
        },
        Step::PushSystemFormula(name) => match sid {
            Some(_) => (a matches Action::Load(f) && f@ == name@ + ".json"@) && ph
                == Phase::AwaitFile(name, false),
            None => a == Action::Fail(Fault::Unresolved) && ph is Failed,
        },
        Step::ApplyHighstate(p) => match sid {
            Some(id) => (a matches Action::Call(r) && r.method@ == "system.scheduleApplyHighstate"@
                && r.args@.len() == 3 && r.args@[0] == WireValue::Int(id) && r.args@[1]
                == WireValue::DateTime(now) && r.args@[2] == WireValue::Bool(false) && r.expect
                == Shape::Int) && ph == Phase::AwaitEvent(p),
            None => a == Action::Fail(Fault::Unresolved) && ph is Failed,
        },
        Step::BuildImage(l, p) => match sid {
            Some(_) => (a matches Action::Call(r) && r.method@ == "image.listImages"@ && r.args@.len()
                == 0 && r.expect == Shape::List) && ph == Phase::AwaitImages(l, p),
            None => a == Action::Fail(Fault::Unresolved) && ph is Failed,
        },
    }
}

/// `a` and `ph` open the step at `index`, or end the scenario with `Done`
/// where no step is left.
pub open spec fn opens(
    steps: Seq<Step>,
    index: int,
    sid: Option<i64>,
    gid: Option<i64>,
    now: String,
    a: Action,
    ph: Phase,
) -> bool {
    if index >= steps.len() {
        a is Done && ph is Finished
    } else {
        step_opening(steps[index], sid, gid, now, a, ph)
    }
}

/// The outcome that a reply to a poll query reports, or `None` where the
/// reply is malformed.
pub open spec fn poll_outcome(kind: PollKind, handle: i64, v: WireValue) -> Option<PollOutcome> {
    match kind {
        PollKind::Highstate => match v {
            WireValue::List(items) => event_scan(items@, handle, 0),
            _ => None,
        },
        PollKind::Image => match str_field(v, "buildStatus"@) {
            Some(status) => Some(image_outcome_of(status)),
            None => None,
        },
    }
}

/// The current step ends: the workflow moves to the next step and opens
/// it, with the ids that `new` holds.
pub open spec fn ends_step(old: Workflow, new: Workflow, a: Action) -> bool {
    &&& new.index == old.index + 1
    &&& opens(new.steps@, new.index as int, new.system_id, new.group_id, new.now, a, new.phase)
}

/// The workflow stays at its step with the ids it had.
pub open spec fn stays(old: Workflow, new: Workflow) -> bool {
    &&& new.index == old.index
    &&& new.system_id == old.system_id
    &&& new.group_id == old.group_id
}

/// The scenario stops on a fault.
pub open spec fn fails(old: Workflow, new: Workflow, a: Action) -> bool {
    stays(old, new) && new.phase is Failed && a is Fail
}

/// The image build is scheduled: the build request for `label` on the
/// resolved system, from `now`, and the phase that awaits its id.
pub open spec fn schedules(old: Workflow, new: Workflow, a: Action, label: String, p: PollPolicy) -> bool {
    match old.system_id {
        Some(id) => stays(old, new) && (a matches Action::Call(r) && r.method@
            == "image.scheduleImageBuild"@ && r.args@.len() == 4 && r.args@[0] == WireValue::Str(
            label,
        ) && (r.args@[1] matches WireValue::Str(e) && e@.len() == 0) && r.args@[2]
            == WireValue::Int(id) && r.args@[3] == WireValue::DateTime(old.now) && r.expect
            == Shape::Int) && new.phase == Phase::AwaitImageScheduled(label, p),
        None => fails(old, new, a),
    }
}

/// The first status query of a poll on `handle`, with `poller` in charge.
pub open spec fn queries(
    old: Workflow,
    new: Workflow,
    a: Action,
    kind: PollKind,
    poller: Poller,
    handle: i64,
) -> bool {
    match kind {
        PollKind::Image => stays(old, new) && calls1(
            a,
            "image.getDetails"@,
            WireValue::Int(handle),
            Shape::Struct,
        ) && new.phase == Phase::Polling(kind, poller, handle),
        PollKind::Highstate => match old.system_id {
            Some(id) => stays(old, new) && calls1(
                a,
                "system.listSystemEvents"@,
                WireValue::Int(id),
                Shape::List,
            ) && new.phase == Phase::Polling(kind, poller, handle),
            None => fails(old, new, a),
        },
    }
}

/// A poll on `handle` under `policy` begins: exhausted at once with a
/// budget of zero, else with its first status query.
pub open spec fn starts_polling(
    old: Workflow,
    new: Workflow,
    a: Action,
    kind: PollKind,
    policy: PollPolicy,
    handle: i64,
) -> bool {
    if policy.budget == 0 {
        fails(old, new, a) && a == Action::Fail(Fault::Job(PollState::Exhausted))
    } else {
        queries(old, new, a, kind, Poller::initial(policy), handle)
    }
}

/// The entitlements a listing shows, or `None` where it is malformed.
pub open spec fn entitlement_check(v: WireValue) -> Option<bool> {
    match v {
        WireValue::List(items) => entitlement_scan(items@, build_host_entitlement(), 0),
        _ => None,
    }
}

/// How the workflow moves on `reply`: from `old` to `new`, asking for `a`.
/// Every pair of phase and reply not listed is a protocol fault.
pub open spec fn advances(old: Workflow, reply: Reply, new: Workflow, a: Action) -> bool {
    &&& new.steps == old.steps
    &&& new.now == old.now
    &&& match (old.phase, reply) {
        (Phase::Ready, _) => stays(old, new) && opens(
            old.steps@,
            old.index as int,
            old.system_id,
            old.group_id,
            old.now,
            a,
            new.phase,
        ),
        (Phase::Finished, _) => stays(old, new) && a is Done && new.phase is Finished,
        (Phase::Failed, _) => fails(old, new, a) && a == Action::Fail(Fault::Protocol),
        (Phase::AwaitSystem, Reply::Value(v)) => match first_id(v) {
            Some(id) => new.system_id == Some(id) && new.group_id == old.group_id && ends_step(
                old,
                new,
                a,
            ),
            None => fails(old, new, a),
        },
        (Phase::AwaitEntitlements, Reply::Value(v)) => match entitlement_check(v) {
            Some(true) => new.system_id == old.system_id && new.group_id == old.group_id
                && ends_step(old, new, a),
            Some(false) => match old.system_id {
                Some(id) => stays(old, new) && (a matches Action::Call(r) && r.method@
                    == "system.addEntitlements"@ && r.args@.len() == 2 && r.args@[0]
                    == WireValue::Int(id) && (r.args@[1] matches WireValue::List(l) && l@.len()
                    == 1 && (l@[0] matches WireValue::Str(e) && e@ == build_host_entitlement()))
                    && r.expect == Shape::Int) && new.phase is AwaitEntitlementAdded,
                None => fails(old, new, a),
            },
            None => fails(old, new, a),
        },
        (Phase::AwaitEntitlementAdded, Reply::Value(v)) => if v == WireValue::Int(1) {
            new.system_id == old.system_id && new.group_id == old.group_id && ends_step(old, new, a)
        } else {
            fails(old, new, a) && a matches Action::Fail(Fault::Rejected(_))
        },
        (Phase::Ensuring(st), Reply::Value(v)) => {
            let (next, call) = ensure_next(st.stage, st.target, v);
            match call {
                Some(c) => stays(old, new) && (a matches Action::Call(r) && ensure_request(
                    st.target,
                    c,
                    r,
                )) && (new.phase matches Phase::Ensuring(st2) && st2.target == st.target
                    && st2.stage == next),
                None => if next == EnsureStage::Done {
                    new.system_id == old.system_id && new.group_id == (if st.target is Group {
                        int_field(v, "id"@)
                    } else {
                        old.group_id
                    }) && ends_step(old, new, a)
                } else {
                    fails(old, new, a)
                },
            }
        },
        (Phase::AwaitBound(_), Reply::Value(v)) => if v == WireValue::Int(1) {
            new.system_id == old.system_id && new.group_id == old.group_id && ends_step(old, new, a)
        } else {
            fails(old, new, a) && a matches Action::Fail(Fault::Rejected(_))
        },
        (Phase::AwaitFile(name, to_group), Reply::Text(t)) => {
            let target = if to_group {
                old.group_id
            } else {
                old.system_id
            };
            if t@.len() > MAX_DOCUMENT_CHARS {
                fails(old, new, a) && a == Action::Fail(Fault::Config(MapError::TooLarge))
            } else {
                match json_document(t@) {
                    None => fails(old, new, a) && a == Action::Fail(
                        Fault::Config(MapError::Unparsable),
                    ),
                    Some(d) => if d is Object && d.supported() {
                        match target {
                            Some(id) => stays(old, new) && (a matches Action::Call(r)
                                && r.args@.len() == 3 && r.args@[0] == WireValue::Int(id)
                                && r.args@[1] == WireValue::Str(name) && mirrors(d, r.args@[2])
                                && r.expect == Shape::Int && r.method@ == (if to_group {
                                "formula.setGroupFormulaData"@
                            } else {
                                "formula.setSystemFormulaData"@
                            })) && new.phase is AwaitPushed,
                            None => fails(old, new, a),
                        }
                    } else {
                        fails(old, new, a) && a matches Action::Fail(Fault::Config(_))
                    },
                }
            }
        },
        (Phase::AwaitPushed(_), Reply::Value(v)) => if v == WireValue::Int(1) {
            new.system_id == old.system_id && new.group_id == old.group_id && ends_step(old, new, a)
        } else {
            fails(old, new, a) && a matches Action::Fail(Fault::Rejected(_))
        },
        (Phase::AwaitEvent(p), Reply::Value(WireValue::Int(e))) => starts_polling(
            old,
            new,
            a,
            PollKind::Highstate,
            p,
            e,
        ),
        (Phase::Polling(k, p, h), Reply::Value(v)) => match poll_outcome(k, h, v) {
            Some(o) => {
                let q = p.after(o);
                if q.state is Pending {
                    stays(old, new) && a == Action::Sleep(q.policy.interval_secs) && new.phase
                        == Phase::Waiting(k, q, h)
                } else if q.state is Succeeded {
                    new.system_id == old.system_id && new.group_id == old.group_id && ends_step(
                        old,
                        new,
                        a,
                    )
                } else {
                    fails(old, new, a) && a == Action::Fail(Fault::Job(q.state))
                }
            },
            None => fails(old, new, a),
        },
        (Phase::Waiting(k, p, h), Reply::Slept) => queries(old, new, a, k, p, h),
        (Phase::AwaitImages(l, p), Reply::Value(v)) => match scan(v, "name"@, l@) {
            Scan::Found(i) => match int_field(v->List_0@[i], "id"@) {
                Some(id) => stays(old, new) && calls1(
                    a,
                    "image.getDetails"@,
                    WireValue::Int(id),
                    Shape::Struct,
                ) && new.phase == Phase::AwaitImageStatus(l, id, p),
                None => fails(old, new, a),
            },
            Scan::Absent => schedules(old, new, a, l, p),
            Scan::Malformed => fails(old, new, a),
        },
        (Phase::AwaitImageStatus(l, id, p), Reply::Value(v)) => match str_field(v, "buildStatus"@) {
            Some(status) => match image_outcome_of(status) {
                PollOutcome::Pending | PollOutcome::Succeeded => stays(old, new) && (
                a matches Action::Confirm(s2) && s2@ == status) && new.phase
                    == Phase::AwaitConfirm(l, id, p),
                PollOutcome::Failed => stays(old, new) && calls1(
                    a,
                    "image.delete"@,
                    WireValue::Int(id),
                    Shape::Int,
                ) && new.phase == Phase::AwaitImageDeleted(l, p),
                PollOutcome::Unknown => fails(old, new, a) && (a matches Action::Fail(
                    Fault::UnknownImageStatus(s2),
                ) && s2@ == status),
            },
            None => fails(old, new, a),
        },
        (Phase::AwaitConfirm(l, id, p), Reply::Answer(yes)) => if yes {
            stays(old, new) && calls1(a, "image.delete"@, WireValue::Int(id), Shape::Int)
                && new.phase == Phase::AwaitImageDeleted(l, p)
        } else {
            new.index == old.steps.len() && a is Done && new.phase is Finished
        },
        (Phase::AwaitImageDeleted(l, p), Reply::Value(v)) => if v == WireValue::Int(1) {
            schedules(old, new, a, l, p)
        } else {
            fails(old, new, a) && a matches Action::Fail(Fault::Rejected(_))
        },
        (Phase::AwaitImageScheduled(l, p), Reply::Value(WireValue::Int(_))) => stays(old, new) && (
        a matches Action::Call(r) && r.method@ == "image.listImages"@ && r.args@.len() == 0
            && r.expect == Shape::List) && new.phase == Phase::AwaitImageListed(l, p),
        (Phase::AwaitImageListed(l, p), Reply::Value(v)) => match scan(v, "name"@, l@) {
            Scan::Found(i) => match int_field(v->List_0@[i], "id"@) {
                Some(id) => starts_polling(old, new, a, PollKind::Image, p, id),
                None => fails(old, new, a),
            },
            Scan::Absent => new.system_id == old.system_id && new.group_id == old.group_id
                && ends_step(old, new, a),
            Scan::Malformed => fails(old, new, a),
        },
        _ => fails(old, new, a) && a == Action::Fail(Fault::Protocol),
    }
}

impl Phase {
    pub open spec fn wf(self) -> bool {
        match self {
            Phase::Ensuring(st) => st.stage == EnsureStage::Listing || st.stage
                == EnsureStage::Deleting || st.stage == EnsureStage::Creating,
            Phase::Polling(_, p, _) => p.wf() && p.state is Pending,
            Phase::Waiting(_, p, _) => p.wf() && p.state is Pending,
            _ => true,
        }
    }
}

impl Workflow {
    pub open spec fn wf(self) -> bool {
        &&& self.index <= self.steps.len()
        &&& self.phase.wf()
        &&& self.phase is Finished ==> self.index == self.steps.len()
        &&& !(self.phase is Ready || self.phase is Finished || self.phase is Failed) ==> self.index
            < self.steps.len()
    }

    /// A workflow over `steps` that has not begun, scheduling its jobs from
    /// `now`; fails with `BadTime` where `now` is not an ISO-8601 date and
    /// time.
    pub fn new(steps: Vec<Step>, now: String) -> (r: Result<Workflow, Fault>)
        ensures
            r is Ok <==> iso8601_datetime_ok(now@),
            r matches Err(f) ==> f is BadTime,
            r matches Ok(w) ==> {
                &&& w.wf()
                &&& w.steps == steps
                &&& w.index == 0
                &&& w.phase is Ready
                &&& w.now == now
                &&& w.system_id is None
                &&& w.group_id is None
            },
    {
        if !iso8601_accepts(now.as_str()) {
            return Err(Fault::BadTime);
        }
        Ok(Workflow { steps, index: 0, phase: Phase::Ready, system_id: None, group_id: None, now })
    }

    fn fail(&mut self, f: Fault) -> (a: Action)
        requires
            old(self).index <= old(self).steps.len(),
        ensures
            final(self).system_id == old(self).system_id,
            final(self).group_id == old(self).group_id,
            final(self).phase is Failed,
            final(self).wf(),
            final(self).steps == old(self).steps,
            final(self).now == old(self).now,
            final(self).index == old(self).index,
            a == Action::Fail(f),
    {
        self.phase = Phase::Failed;
        Action::Fail(f)
    }

    fn call(&mut self, phase: Phase, req: Request) -> (a: Action)
        requires
            old(self).index < old(self).steps.len(),
            phase.wf(),
            !(phase is Ready || phase is Finished || phase is Failed),
        ensures
            final(self).system_id == old(self).system_id,
            final(self).group_id == old(self).group_id,
            final(self).phase == phase,
            final(self).wf(),
            final(self).steps == old(self).steps,
            final(self).now == old(self).now,
            final(self).index == old(self).index,
            a == Action::Call(req),
    {
        self.phase = phase;
        Action::Call(req)
    }

    /// Moves past the current step and begins the next one.
    fn finish_step(&mut self) -> (a: Action)
        requires
            old(self).index < old(self).steps.len(),
            old(self).phase.wf(),
        ensures
            final(self).system_id == old(self).system_id,
            final(self).group_id == old(self).group_id,
            ends_step(*old(self), *final(self), a),
            final(self).wf(),
            final(self).steps == old(self).steps,
            final(self).now == old(self).now,
            a is Done <==> final(self).phase is Finished,
            a is Fail <==> final(self).phase is Failed,
    {
        self.index = self.index + 1;
        self.phase = Phase::Ready;
        self.begin_step()
    }

    /// Begins the current step, or ends the scenario after the last one.
    fn begin_step(&mut self) -> (a: Action)
        requires
            old(self).index <= old(self).steps.len(),
            old(self).phase is Ready,
        ensures
            stays(*old(self), *final(self)),
            opens(
                old(self).steps@,
                old(self).index as int,
                old(self).system_id,
                old(self).group_id,
                old(self).now,
                a,
                final(self).phase,
            ),
            final(self).wf(),
            final(self).steps == old(self).steps,
            final(self).now == old(self).now,
            a is Done <==> final(self).phase is Finished,
            a is Fail <==> final(self).phase is Failed,
    {
        if self.index >= self.steps.len() {
            self.phase = Phase::Finished;
            return Action::Done;
        }
        let sid = self.system_id;
        let gid = self.group_id;
        match &self.steps[self.index] {
            Step::ResolveSystem(name) => {
                let req = request("system.getId", vec![WireValue::Str(name.clone())], Shape::List);
                self.call(Phase::AwaitSystem, req)
            },
            Step::EnsureEntitlement => match sid {
                Some(id) => {
                    let req = request(
                        "system.getEntitlements",
                        vec![WireValue::Int(id)],
                        Shape::List,
                    );
                    self.call(Phase::AwaitEntitlements, req)
                },
                None => self.fail(Fault::Unresolved),
            },
            Step::Ensure(target) => {
                let mut st = EnsureStep::new(target.duplicate());
                let req = st.start();
                self.call(Phase::Ensuring(st), req)
            },
            Step::BindGroupFormula(name) => match gid {
                Some(g) => {
                    let names = vec![WireValue::Str(name.clone())];
                    let req = request(
                        "formula.setFormulasOfGroup",
                        vec![WireValue::Int(g), WireValue::List(names)],
                        Shape::Int,
                    );
                    self.call(Phase::AwaitBound(String::from_str("formula.setFormulasOfGroup")), req)
                },
                None => self.fail(Fault::Unresolved),
            },
            Step::BindSystemFormulas(names) => match sid {
                Some(id) => {
                    let mut list: Vec<WireValue> = Vec::new();
                    let mut i: usize = 0;
                    while i < names.len()
                        invariant
                            i <= names.len(),
                            self.steps@[self.index as int] == Step::BindSystemFormulas(*names),
                            list.len() == i,
                            forall|j: int|
                                0 <= j < i ==> #[trigger] list@[j] == WireValue::Str(names@[j]),
                        decreases names.len() - i,
                    {
                        list.push(WireValue::Str(names[i].clone()));
                        i = i + 1;
                    }
                    let req = request(
                        "formula.setFormulasOfServer",
                        vec![WireValue::Int(id), WireValue::List(list)],
                        Shape::Int,
                    );
                    self.call(Phase::AwaitBound(String::from_str("formula.setFormulasOfServer")), req)
                },
                None => self.fail(Fault::Unresolved),
            },
            Step::PushGroupFormula(name) => {
                if gid.is_none() {
                    return self.fail(Fault::Unresolved);
                }
                let file = name.clone().concat(".json");
                self.phase = Phase::AwaitFile(name.clone(), true);
                Action::Load(file)
            },
            Step::PushSystemFormula(name) => {
                if sid.is_none() {
                    return self.fail(Fault::Unresolved);
                }
                let file = name.clone().concat(".json");
                self.phase = Phase::AwaitFile(name.clone(), false);
                Action::Load(file)
            },
            Step::ApplyHighstate(policy) => match sid {
                Some(id) => {
                    let req = request(
                        "system.scheduleApplyHighstate",
                        vec![
                            WireValue::Int(id),
                            WireValue::DateTime(self.now.clone()),
                            WireValue::Bool(false),
                        ],
                        Shape::Int,
                    );
                    self.call(Phase::AwaitEvent(*policy), req)
                },
                None => self.fail(Fault::Unresolved),
            },
            Step::BuildImage(label, policy) => {
                if sid.is_none() {
                    return self.fail(Fault::Unresolved);
                }
                let req = request("image.listImages", Vec::new(), Shape::List);
                self.call(Phase::AwaitImages(label.clone(), *policy), req)
            },
        }
    }

    fn schedule_image(&mut self, label: String, policy: PollPolicy) -> (a: Action)
        requires
            old(self).index < old(self).steps.len(),
        ensures
            schedules(*old(self), *final(self), a, label, policy),
            final(self).wf(),
            final(self).steps == old(self).steps,
            final(self).now == old(self).now,
            a is Done <==> final(self).phase is Finished,
            a is Fail <==> final(self).phase is Failed,
    {
        proof {
            reveal_strlit("");
        }
        match self.system_id {
            Some(id) => {
                let args = vec![
                    WireValue::Str(label.clone()),
                    text(""),
                    WireValue::Int(id),
                    WireValue::DateTime(self.now.clone()),
                ];
                let req = request("image.scheduleImageBuild", args, Shape::Int);
                self.call(Phase::AwaitImageScheduled(label, policy), req)
            },
            None => self.fail(Fault::Unresolved),
        }
    }

    fn query(&mut self, kind: PollKind, poller: Poller, handle: i64) -> (a: Action)
        requires
            old(self).index < old(self).steps.len(),
            poller.wf(),
            poller.state is Pending,
        ensures
            queries(*old(self), *final(self), a, kind, poller, handle),
            final(self).wf(),
            final(self).steps == old(self).steps,
            final(self).now == old(self).now,
            a is Done <==> final(self).phase is Finished,
            a is Fail <==> final(self).phase is Failed,
    {
        match kind {
            PollKind::Highstate => match self.system_id {
                Some(id) => {
                    let req = request(
                        "system.listSystemEvents",
                        vec![WireValue::Int(id)],
                        Shape::List,
                    );
                    self.call(Phase::Polling(kind, poller, handle), req)
                },
                None => self.fail(Fault::Unresolved),
            },
            PollKind::Image => {
                let req = request("image.getDetails", vec![WireValue::Int(handle)], Shape::Struct);
                self.call(Phase::Polling(kind, poller, handle), req)
            },
        }
    }

    fn start_polling(&mut self, kind: PollKind, policy: PollPolicy, handle: i64) -> (a: Action)
        requires
            old(self).index < old(self).steps.len(),
        ensures
            starts_polling(*old(self), *final(self), a, kind, policy, handle),
            final(self).wf(),
            final(self).steps == old(self).steps,
            final(self).now == old(self).now,
            a is Done <==> final(self).phase is Finished,
            a is Fail <==> final(self).phase is Failed,
    {
        let poller = Poller::new(policy);
        if poller.is_pending() {
            self.query(kind, poller, handle)
        } else {
            self.fail(Fault::Job(PollState::Exhausted))
        }
    }

    /// Takes in the driver's reply and says what to do next. A scenario
    /// that has finished stays finished; a failed one stays failed.
    pub fn advance(&mut self, reply: Reply) -> (a: Action)
        requires
            old(self).wf(),
        ensures
            final(self).wf(),
            final(self).index >= old(self).index,
            a is Done <==> final(self).phase is Finished,
            a is Fail <==> final(self).phase is Failed,
            advances(*old(self), reply, *final(self), a),
    {
        let mut phase = Phase::Failed;
        std::mem::swap(&mut self.phase, &mut phase);
        match (phase, reply) {
            (Phase::Ready, _) => {
                self.phase = Phase::Ready;
                self.begin_step()
            },
            (Phase::Finished, _) => {
                self.phase = Phase::Finished;
                Action::Done
            },
            (Phase::Failed, _) => self.fail(Fault::Protocol),
            (Phase::AwaitSystem, Reply::Value(v)) => match get_system_id(&v) {
                Ok(id) => {
                    self.system_id = Some(id);
                    self.finish_step()
                },
                Err(e) => self.fail(Fault::Session(e)),
            },
            (Phase::AwaitEntitlements, Reply::Value(v)) => match has_buildhost_entitlement(&v) {
                Ok(true) => self.finish_step(),
                Ok(false) => match self.system_id {
                    Some(id) => {
                        let ents = vec![text("osimage_build_host")];
                        let req = request(
                            "system.addEntitlements",
                            vec![WireValue::Int(id), WireValue::List(ents)],
                            Shape::Int,
                        );
                        self.call(Phase::AwaitEntitlementAdded, req)
                    },
                    None => self.fail(Fault::Unresolved),
                },
                Err(e) => self.fail(Fault::Session(e)),
            },
            (Phase::AwaitEntitlementAdded, Reply::Value(v)) => {
                if matches!(v, WireValue::Int(1)) {
                    self.finish_step()
                } else {
                    self.fail(Fault::Rejected(String::from_str("system.addEntitlements")))
                }
            },
            (Phase::Ensuring(mut st), Reply::Value(v)) => match st.advance(&v) {
                Ok(Some(req)) => self.call(Phase::Ensuring(st), req),
                Ok(None) => {
                    if matches!(st.target, EnsureTarget::Group(_)) {
                        self.group_id = st.created_id;
                    }
                    self.finish_step()
                },
                Err(f) => self.fail(f),
            },
            (Phase::AwaitBound(method), Reply::Value(v)) => {
                if matches!(v, WireValue::Int(1)) {
                    self.finish_step()
                } else {
                    self.fail(Fault::Rejected(method))
                }
            },
            (Phase::AwaitFile(name, to_group), Reply::Text(t)) => match formula_payload(
                t.as_str(),
            ) {
                Ok(payload) => {
                    let target = if to_group {
                        self.group_id
                    } else {
                        self.system_id
                    };
                    match target {
                        Some(id) => {
                            let method = if to_group {
                                "formula.setGroupFormulaData"
                            } else {
                                "formula.setSystemFormulaData"
                            };
                            let req = request(
                                method,
                                vec![WireValue::Int(id), WireValue::Str(name), payload],
                                Shape::Int,
                            );
                            self.call(Phase::AwaitPushed(String::from_str(method)), req)
                        },
                        None => self.fail(Fault::Unresolved),
                    }
                },
                Err(e) => self.fail(Fault::Config(e)),
            },
            (Phase::AwaitPushed(method), Reply::Value(v)) => {
                if matches!(v, WireValue::Int(1)) {
                    self.finish_step()
                } else {
                    self.fail(Fault::Rejected(method))
                }
            },
            (Phase::AwaitEvent(policy), Reply::Value(WireValue::Int(ev))) => {
                self.start_polling(PollKind::Highstate, policy, ev)
            },
            (Phase::Polling(kind, mut poller, handle), Reply::Value(v)) => {
                let outcome = match kind {
                    PollKind::Highstate => status_highstate(&v, handle),
                    PollKind::Image => match status_kiwi_image(&v) {
                        Ok(status) => Ok(image_outcome(status.as_str())),
                        Err(e) => Err(e),
                    },
                };
                match outcome {
                    Ok(o) => match poller.observe(o) {
                        PollAction::Sleep(secs) => {
                            self.phase = Phase::Waiting(kind, poller, handle);
                            Action::Sleep(secs)
                        },
                        PollAction::Stop(PollState::Succeeded) => self.finish_step(),
                        PollAction::Stop(state) => self.fail(Fault::Job(state)),
                    },
                    Err(e) => self.fail(Fault::Session(e)),
                }
            },
            (Phase::Waiting(kind, poller, handle), Reply::Slept) => {
                self.query(kind, poller, handle)
            },
            (Phase::AwaitImages(label, policy), Reply::Value(v)) => match exists_kiwi_image(
                label.as_str(),
                &v,
            ) {
                Ok(Some(id)) => {
                    let req = request("image.getDetails", vec![WireValue::Int(id)], Shape::Struct);
                    self.call(Phase::AwaitImageStatus(label, id, policy), req)
                },
                Ok(None) => self.schedule_image(label, policy),
                Err(e) => self.fail(Fault::Session(e)),
            },
            (Phase::AwaitImageStatus(label, id, policy), Reply::Value(v)) => match status_kiwi_image(
                &v,
            ) {
                Ok(status) => match image_outcome(status.as_str()) {
                    PollOutcome::Pending | PollOutcome::Succeeded => {
                        self.phase = Phase::AwaitConfirm(label, id, policy);
                        Action::Confirm(status)
                    },
                    PollOutcome::Failed => {
                        let req = request("image.delete", vec![WireValue::Int(id)], Shape::Int);
                        self.call(Phase::AwaitImageDeleted(label, policy), req)
                    },
                    PollOutcome::Unknown => self.fail(Fault::UnknownImageStatus(status)),
                },
                Err(e) => self.fail(Fault::Session(e)),
            },
            (Phase::AwaitConfirm(label, id, policy), Reply::Answer(yes)) => {
                if yes {
                    let req = request("image.delete", vec![WireValue::Int(id)], Shape::Int);
                    self.call(Phase::AwaitImageDeleted(label, policy), req)
                } else {
                    self.index = self.steps.len();
                    self.phase = Phase::Finished;
                    Action::Done
                }
            },
            (Phase::AwaitImageDeleted(label, policy), Reply::Value(v)) => {
                if matches!(v, WireValue::Int(1)) {
                    self.schedule_image(label, policy)
                } else {
                    self.fail(Fault::Rejected(String::from_str("image.delete")))
                }
            },
            (Phase::AwaitImageScheduled(label, policy), Reply::Value(WireValue::Int(_))) => {
                let req = request("image.listImages", Vec::new(), Shape::List);
                self.call(Phase::AwaitImageListed(label, policy), req)
            },
            (Phase::AwaitImageListed(label, policy), Reply::Value(v)) => {
                match exists_kiwi_image(label.as_str(), &v) {
                    Ok(Some(id)) => self.start_polling(PollKind::Image, policy, id),
                    Ok(None) => self.finish_step(),
                    Err(e) => self.fail(Fault::Session(e)),
                }
            },
            _ => self.fail(Fault::Protocol),
        }
    }
}

/// A workflow polls as its poller does: after a pending report and the
/// sleep that follows it, the workflow queries the same job again, with
/// the poller in the state that `Poller::after` gives, so attempts and
/// budget carry over from one query to the next.
pub proof fn lemma_workflow_poll_cycle(
    w0: Workflow,
    v: WireValue,
    w1: Workflow,
    a1: Action,
    w2: Workflow,
    a2: Action,
)
    requires
        w0.phase is Polling,
        poll_outcome(w0.phase->Polling_0, w0.phase->Polling_2, v) == Some(PollOutcome::Pending),
        w0.phase->Polling_1.after(PollOutcome::Pending).state is Pending,
        advances(w0, Reply::Value(v), w1, a1),
        advances(w1, Reply::Slept, w2, a2),
        w0.phase->Polling_0 is Image || w0.system_id is Some,
    ensures
        a1 == Action::Sleep(w0.phase->Polling_1.policy.interval_secs),
        w2.phase == Phase::Polling(
            w0.phase->Polling_0,
            w0.phase->Polling_1.after(PollOutcome::Pending),
            w0.phase->Polling_2,
        ),
        w2.index == w0.index,
        a2 is Call,
{
}

/// A workflow rebuilds an existing resource as its idempotent step does:
/// once the listing shows the group or profile, the workflow asks to
/// delete it, and once the delete succeeds, to create it, staying at the
/// same step.
pub proof fn lemma_workflow_rebuilds_existing(
    w0: Workflow,
    listing: WireValue,
    w1: Workflow,
    a1: Action,
    w2: Workflow,
    a2: Action,
)
    requires
        w0.phase is Ensuring,
        w0.phase->Ensuring_0.stage == EnsureStage::Listing,
        listing_shows(w0.phase->Ensuring_0.target, listing) == Some(true),
        advances(w0, Reply::Value(listing), w1, a1),
        advances(w1, Reply::Value(WireValue::Int(1)), w2, a2),
    ensures
        a1 matches Action::Call(r) && ensure_request(
            w0.phase->Ensuring_0.target,
            EnsureCall::Delete,
            r,
        ),
        a2 matches Action::Call(r) && ensure_request(
            w0.phase->Ensuring_0.target,
            EnsureCall::Create,
            r,
        ),
        w2.index == w0.index,
        w2.phase matches Phase::Ensuring(st) && st.stage == EnsureStage::Creating,
{
}

/// The formulas of a retail branch server, in the order they are bound.
pub open spec fn retail_formulas() -> Seq<Seq<char>> {
    seq![
        "branch-network"@,
        "dhcpd"@,
        "pxe"@,
        "tftpd"@,
        "vsftpd"@,
        "image-synchronize"@,
        "bind"@,
    ]
}

/// Prepares the build host: the build host entitlement, then a highstate
/// polled under `policy`.
pub fn prepare_buildhost(build_host: &str, policy: PollPolicy) -> (r: Vec<Step>)
    ensures
        r@.len() == 3,
        r@[0] matches Step::ResolveSystem(n) && n@ == build_host@,
        r@[1] is EnsureEntitlement,
        r@[2] == Step::ApplyHighstate(policy),
{
    vec![
        Step::ResolveSystem(String::from_str(build_host)),
        Step::EnsureEntitlement,
        Step::ApplyHighstate(policy),
    ]
}

/// Rebuilds the kiwi image profile.
pub fn prepare_kiwi_profile(profile: ProfileSpec) -> (r: Vec<Step>)
    ensures
        r@ == seq![Step::Ensure(EnsureTarget::Profile(profile))],
{
    vec![Step::Ensure(EnsureTarget::Profile(profile))]
}

/// Builds the image of profile `label` on the build host, polling the build
/// under `policy`.
pub fn build_kiwi_image(label: &str, build_host: &str, policy: PollPolicy) -> (r: Vec<Step>)
    ensures
        r@.len() == 2,
        r@[0] matches Step::ResolveSystem(n) && n@ == build_host@,
        r@[1] matches Step::BuildImage(l, p) && l@ == label@ && p == policy,
{
    vec![
        Step::ResolveSystem(String::from_str(build_host)),
        Step::BuildImage(String::from_str(label), policy),
    ]
}

/// Rebuilds the hardware-type group and configures the saltboot formula on
/// it.
pub fn configure_saltboot(hwgroup_name: &str) -> (r: Vec<Step>)
    ensures
        r@.len() == 3,
        r@[0] matches Step::Ensure(EnsureTarget::Group(g)) && g@ == hwgroup_name@,
        r@[1] matches Step::BindGroupFormula(f) && f@ == "saltboot"@,
        r@[2] matches Step::PushGroupFormula(f) && f@ == "saltboot"@,
{
    vec![
        Step::Ensure(EnsureTarget::Group(String::from_str(hwgroup_name))),
        Step::BindGroupFormula(String::from_str("saltboot")),
        Step::PushGroupFormula(String::from_str("saltboot")),
    ]
}

/// Binds the retail formulas to the branch server, then pushes each one's
/// configuration.
pub fn configure_retail_formulas(branch_server: &str) -> (r: Vec<Step>)
    ensures
        r@.len() == 2 + retail_formulas().len(),
        r@[0] matches Step::ResolveSystem(n) && n@ == branch_server@,
        r@[1] matches Step::BindSystemFormulas(names) && names@.len() == retail_formulas().len()
            && forall|i: int| 0 <= i < names.len() ==> (#[trigger] names@[i])@ == retail_formulas()[i],
        forall|i: int|
            0 <= i < retail_formulas().len() ==> ((#[trigger] r@[2 + i]) matches Step::PushSystemFormula(f)
                && f@ == retail_formulas()[i]),
{
    let names: Vec<String> = vec![
        String::from_str("branch-network"),
        String::from_str("dhcpd"),
        String::from_str("pxe"),
        String::from_str("tftpd"),
        String::from_str("vsftpd"),
        String::from_str("image-synchronize"),
        String::from_str("bind"),
    ];
    let mut steps: Vec<Step> = Vec::new();
    steps.push(Step::ResolveSystem(String::from_str(branch_server)));
    let mut bound: Vec<String> = Vec::new();
    let mut i: usize = 0;
    while i < names.len()
        invariant
            i <= names.len(),
            names@.len() == retail_formulas().len(),
            forall|j: int| 0 <= j < names.len() ==> (#[trigger] names@[j])@ == retail_formulas()[j],
            bound@.len() == i,
            forall|j: int| 0 <= j < i ==> (#[trigger] bound@[j])@ == names@[j]@,
        decreases names.len() - i,
    {
        bound.push(names[i].clone());
        i = i + 1;
    }
    steps.push(Step::BindSystemFormulas(bound));
    let mut k: usize = 0;
    while k < names.len()
        invariant
            k <= names.len(),
            names@.len() == retail_formulas().len(),
            forall|j: int| 0 <= j < names.len() ==> (#[trigger] names@[j])@ == retail_formulas()[j],
            steps@.len() == 2 + k,
            steps@[0] matches Step::ResolveSystem(n) && n@ == branch_server@,
            steps@[1] matches Step::BindSystemFormulas(ns) && ns@.len() == retail_formulas().len()
                && forall|j: int| 0 <= j < ns.len() ==> (#[trigger] ns@[j])@ == retail_formulas()[j],
            forall|j: int|
                0 <= j < k ==> ((#[trigger] steps@[2 + j]) matches Step::PushSystemFormula(f) && f@
                    == retail_formulas()[j]),
        decreases names.len() - k,
    {
        steps.push(Step::PushSystemFormula(names[k].clone()));
        k = k + 1;
    }
    steps
}

/// Rebuilds the `SERVERS`, `TERMINALS` and `id` groups, then applies the
/// highstate to the branch server, polled under `policy`.
pub fn prepare_for_deployment(branch_server: &str, policy: PollPolicy) -> (r: Vec<Step>)
    ensures
        r@.len() == 5,
        r@[0] matches Step::Ensure(EnsureTarget::Group(g)) && g@ == "SERVERS"@,
        r@[1] matches Step::Ensure(EnsureTarget::Group(g)) && g@ == "TERMINALS"@,
        r@[2] matches Step::Ensure(EnsureTarget::Group(g)) && g@ == "id"@,
        r@[3] matches Step::ResolveSystem(n) && n@ == branch_server@,
        r@[4] == Step::ApplyHighstate(policy),
{
    vec![
        Step::Ensure(EnsureTarget::Group(String::from_str("SERVERS"))),
        Step::Ensure(EnsureTarget::Group(String::from_str("TERMINALS"))),
        Step::Ensure(EnsureTarget::Group(String::from_str("id"))),
        Step::ResolveSystem(String::from_str(branch_server)),
        Step::ApplyHighstate(policy),
    ]
}

/// The request that clones the activation key `source_key` under the name
/// `key_name`; the service answers with the new key.
pub fn clone_activation_key(source_key: &str, key_name: &str) -> (r: Request)
    ensures
        r.method@ == "activationkey.clone"@,
        r.args@.len() == 2,
        r.args@[0] matches WireValue::Str(s) && s@ == source_key@,
        r.args@[1] matches WireValue::Str(k) && k@ == key_name@,
        r.expect == Shape::Str,
{
    request("activationkey.clone", vec![text(source_key), text(key_name)], Shape::Str)
}

} // verus!
