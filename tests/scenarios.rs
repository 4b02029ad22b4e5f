use semi_xmlrpc_tester::poller::{PollPolicy, PollState};
use semi_xmlrpc_tester::scenarios::{
    build_kiwi_image, clone_activation_key, configure_retail_formulas, configure_saltboot,
    prepare_buildhost, prepare_for_deployment, prepare_kiwi_profile, Action, EnsureStage,
    EnsureStep, EnsureTarget, Fault, ProfileSpec, Reply, Request, Step, Workflow,
};
use semi_xmlrpc_tester::session::Shape;
use semi_xmlrpc_tester::wire::WireValue;

fn s(x: &str) -> WireValue {
    WireValue::Str(x.to_string())
}

fn named(key: &str, name: &str, id: i64) -> WireValue {
    WireValue::Struct(vec![(key.to_string(), s(name)), ("id".to_string(), WireValue::Int(id))])
}

fn call(a: Action, method: &str) -> Request {
    match a {
        Action::Call(r) => {
            assert_eq!(r.method, method);
            r
        }
        other => panic!("expected a call of {}, got {:?}", method, other),
    }
}

const NOW: &str = "2024-05-01T10:00:00+00:00";

#[test]
fn existing_group_is_deleted_once_then_created_once() {
    let mut w = Workflow::new(configure_saltboot("HWTYPE"), NOW.to_string()).unwrap();
    let mut methods = Vec::new();
    let r = call(w.advance(Reply::Begin), "systemgroup.listAllGroups");
    methods.push(r.method);
    let listing = WireValue::List(vec![named("name", "SERVERS", 1), named("name", "HWTYPE", 2)]);
    let r = call(w.advance(Reply::Value(listing)), "systemgroup.delete");
    assert!(matches!(&r.args[..], [WireValue::Str(g)] if g == "HWTYPE"));
    methods.push(r.method);
    let r = call(w.advance(Reply::Value(WireValue::Int(1))), "systemgroup.create");
    assert!(matches!(&r.args[..], [WireValue::Str(a), WireValue::Str(b)] if a == "HWTYPE" && b == "HWTYPE"));
    assert_eq!(r.expect, Shape::Struct);
    methods.push(r.method);
    let created = WireValue::Struct(vec![("id".to_string(), WireValue::Int(55))]);
    let r = call(w.advance(Reply::Value(created)), "formula.setFormulasOfGroup");
    assert!(matches!(&r.args[0], WireValue::Int(55)));
    assert!(matches!(&r.args[1], WireValue::List(l) if matches!(&l[..], [WireValue::Str(f)] if f == "saltboot")));
    match w.advance(Reply::Value(WireValue::Int(1))) {
        Action::Load(file) => assert_eq!(file, "saltboot.json"),
        other => panic!("expected a load, got {:?}", other),
    }
    let r = call(
        w.advance(Reply::Text(r#"{"partitioning": {"disk1": {"size": 100}}}"#.to_string())),
        "formula.setGroupFormulaData",
    );
    assert!(matches!(&r.args[0], WireValue::Int(55)));
    assert!(matches!(&r.args[1], WireValue::Str(f) if f == "saltboot"));
    assert!(matches!(&r.args[2], WireValue::Struct(m) if m[0].0 == "partitioning"));
    assert!(matches!(w.advance(Reply::Value(WireValue::Int(1))), Action::Done));
    assert_eq!(methods, vec!["systemgroup.listAllGroups", "systemgroup.delete", "systemgroup.create"]);
    assert!(matches!(w.advance(Reply::Begin), Action::Done));
}

#[test]
fn absent_group_is_only_created() {
    let mut st = EnsureStep::new(EnsureTarget::Group("TERMINALS".to_string()));
    let r = st.start();
    assert_eq!(r.method, "systemgroup.listAllGroups");
    let listing = WireValue::List(vec![named("name", "SERVERS", 1)]);
    let r = st.advance(&listing).unwrap().unwrap();
    assert_eq!(r.method, "systemgroup.create");
    let done = st.advance(&WireValue::Struct(vec![("id".to_string(), WireValue::Int(9))])).unwrap();
    assert!(done.is_none());
    assert_eq!(st.stage, EnsureStage::Done);
    assert_eq!(st.created_id, Some(9));
}

#[test]
fn rejected_delete_fails_the_step() {
    let mut st = EnsureStep::new(EnsureTarget::Group("G".to_string()));
    st.start();
    st.advance(&WireValue::List(vec![named("name", "G", 1)])).unwrap();
    match st.advance(&WireValue::Int(0)) {
        Err(Fault::Rejected(m)) => assert_eq!(m, "systemgroup.delete"),
        other => panic!("expected a rejection, got {:?}", other),
    }
    assert_eq!(st.stage, EnsureStage::Failed);
}

fn profile() -> ProfileSpec {
    ProfileSpec {
        label: "POS_Image".to_string(),
        image_store: "store".to_string(),
        path: "https://git/kiwi".to_string(),
        activation_key: "1-key".to_string(),
    }
}

#[test]
fn profile_is_rebuilt() {
    let mut w = Workflow::new(prepare_kiwi_profile(profile()), NOW.to_string()).unwrap();
    call(w.advance(Reply::Begin), "image.profile.listImageProfiles");
    let listing = WireValue::List(vec![named("label", "POS_Image", 3)]);
    call(w.advance(Reply::Value(listing)), "image.profile.delete");
    let r = call(w.advance(Reply::Value(WireValue::Int(1))), "image.profile.create");
    assert_eq!(r.args.len(), 5);
    assert!(matches!(&r.args[1], WireValue::Str(k) if k == "kiwi"));
    assert!(matches!(&r.args[4], WireValue::Str(k) if k == "1-key"));
    assert!(matches!(w.advance(Reply::Value(WireValue::Int(1))), Action::Done));
}

fn system_reply(id: i64) -> WireValue {
    WireValue::List(vec![named("name", "host", id)])
}

fn event(id: i64, failed: i64, ok: i64) -> WireValue {
    WireValue::Struct(vec![
        ("id".to_string(), WireValue::Int(id)),
        ("failed_count".to_string(), WireValue::Int(failed)),
        ("successful_count".to_string(), WireValue::Int(ok)),
    ])
}

#[test]
fn buildhost_gets_entitlement_and_highstate() {
    let policy = PollPolicy { interval_secs: 15, budget: 80 };
    let mut w = Workflow::new(prepare_buildhost("bh", policy), NOW.to_string()).unwrap();
    let r = call(w.advance(Reply::Begin), "system.getId");
    assert!(matches!(&r.args[..], [WireValue::Str(h)] if h == "bh"));
    let r = call(w.advance(Reply::Value(system_reply(5))), "system.getEntitlements");
    assert!(matches!(&r.args[..], [WireValue::Int(5)]));
    let r = call(w.advance(Reply::Value(WireValue::List(vec![s("salt_entitled")]))), "system.addEntitlements");
    assert!(matches!(&r.args[1], WireValue::List(l) if matches!(&l[..], [WireValue::Str(e)] if e == "osimage_build_host")));
    let r = call(w.advance(Reply::Value(WireValue::Int(1))), "system.scheduleApplyHighstate");
    assert!(matches!(&r.args[1], WireValue::DateTime(t) if t == NOW));
    assert!(matches!(&r.args[2], WireValue::Bool(false)));
    call(w.advance(Reply::Value(WireValue::Int(99))), "system.listSystemEvents");
    let pending = WireValue::List(vec![event(99, 0, 0)]);
    assert!(matches!(w.advance(Reply::Value(pending)), Action::Sleep(15)));
    call(w.advance(Reply::Slept), "system.listSystemEvents");
    let done = WireValue::List(vec![event(99, 0, 1)]);
    assert!(matches!(w.advance(Reply::Value(done)), Action::Done));
}

#[test]
fn entitled_buildhost_skips_adding() {
    let policy = PollPolicy { interval_secs: 15, budget: 80 };
    let mut w = Workflow::new(prepare_buildhost("bh", policy), NOW.to_string()).unwrap();
    call(w.advance(Reply::Begin), "system.getId");
    call(w.advance(Reply::Value(system_reply(5))), "system.getEntitlements");
    call(
        w.advance(Reply::Value(WireValue::List(vec![s("osimage_build_host")]))),
        "system.scheduleApplyHighstate",
    );
}

#[test]
fn failed_highstate_fails_the_scenario() {
    let policy = PollPolicy { interval_secs: 30, budget: 20 };
    let mut w = Workflow::new(prepare_for_deployment("branch", policy), NOW.to_string()).unwrap();
    let mut next = w.advance(Reply::Begin);
    for (i, group) in ["SERVERS", "TERMINALS", "id"].iter().enumerate() {
        call(next, "systemgroup.listAllGroups");
        let r = call(w.advance(Reply::Value(WireValue::List(vec![]))), "systemgroup.create");
        assert!(matches!(&r.args[0], WireValue::Str(g) if g == group));
        let created = WireValue::Struct(vec![("id".to_string(), WireValue::Int(i as i64 + 1))]);
        next = w.advance(Reply::Value(created));
    }
    call(next, "system.getId");
    call(w.advance(Reply::Value(system_reply(8))), "system.scheduleApplyHighstate");
    call(w.advance(Reply::Value(WireValue::Int(4))), "system.listSystemEvents");
    match w.advance(Reply::Value(WireValue::List(vec![event(4, 1, 0)]))) {
        Action::Fail(Fault::Job(PollState::Failed)) => {}
        other => panic!("expected a failed job, got {:?}", other),
    }
    assert!(matches!(w.advance(Reply::Begin), Action::Fail(Fault::Protocol)));
}

#[test]
fn highstate_budget_exhausts() {
    let policy = PollPolicy { interval_secs: 1, budget: 2 };
    let mut w = Workflow::new(prepare_buildhost("bh", policy), NOW.to_string()).unwrap();
    call(w.advance(Reply::Begin), "system.getId");
    call(w.advance(Reply::Value(system_reply(5))), "system.getEntitlements");
    call(w.advance(Reply::Value(WireValue::List(vec![s("osimage_build_host")]))), "system.scheduleApplyHighstate");
    call(w.advance(Reply::Value(WireValue::Int(7))), "system.listSystemEvents");
    assert!(matches!(w.advance(Reply::Value(WireValue::List(vec![]))), Action::Sleep(1)));
    call(w.advance(Reply::Slept), "system.listSystemEvents");
    assert!(matches!(
        w.advance(Reply::Value(WireValue::List(vec![]))),
        Action::Fail(Fault::Job(PollState::Exhausted))
    ));
}

fn image_flow_start(w: &mut Workflow, status: &str) -> Action {
    call(w.advance(Reply::Begin), "system.getId");
    call(w.advance(Reply::Value(system_reply(5))), "image.listImages");
    let images = WireValue::List(vec![named("name", "POS_Image", 21)]);
    let r = call(w.advance(Reply::Value(images)), "image.getDetails");
    assert!(matches!(&r.args[..], [WireValue::Int(21)]));
    let details = WireValue::Struct(vec![("buildStatus".to_string(), s(status))]);
    w.advance(Reply::Value(details))
}

#[test]
fn completed_image_kept_when_operator_declines() {
    let policy = PollPolicy { interval_secs: 60, budget: 40 };
    let mut w = Workflow::new(build_kiwi_image("POS_Image", "bh", policy), NOW.to_string()).unwrap();
    match image_flow_start(&mut w, "completed") {
        Action::Confirm(status) => assert_eq!(status, "completed"),
        other => panic!("expected a confirmation, got {:?}", other),
    }
    assert!(matches!(w.advance(Reply::Answer(false)), Action::Done));
}

#[test]
fn failed_image_is_rebuilt_and_polled() {
    let policy = PollPolicy { interval_secs: 60, budget: 40 };
    let mut w = Workflow::new(build_kiwi_image("POS_Image", "bh", policy), NOW.to_string()).unwrap();
    let r = call(image_flow_start(&mut w, "failed"), "image.delete");
    assert!(matches!(&r.args[..], [WireValue::Int(21)]));
    let r = call(w.advance(Reply::Value(WireValue::Int(1))), "image.scheduleImageBuild");
    assert!(matches!(&r.args[0], WireValue::Str(l) if l == "POS_Image"));
    assert!(matches!(&r.args[1], WireValue::Str(e) if e.is_empty()));
    assert!(matches!(&r.args[2], WireValue::Int(5)));
    assert!(matches!(&r.args[3], WireValue::DateTime(_)));
    call(w.advance(Reply::Value(WireValue::Int(77))), "image.listImages");
    let images = WireValue::List(vec![named("name", "POS_Image", 22)]);
    let r = call(w.advance(Reply::Value(images)), "image.getDetails");
    assert!(matches!(&r.args[..], [WireValue::Int(22)]));
    let queued = WireValue::Struct(vec![("buildStatus".to_string(), s("queued"))]);
    assert!(matches!(w.advance(Reply::Value(queued)), Action::Sleep(60)));
    call(w.advance(Reply::Slept), "image.getDetails");
    let done = WireValue::Struct(vec![("buildStatus".to_string(), s("completed"))]);
    assert!(matches!(w.advance(Reply::Value(done)), Action::Done));
}

#[test]
fn confirmed_rebuild_deletes_first() {
    let policy = PollPolicy { interval_secs: 60, budget: 40 };
    let mut w = Workflow::new(build_kiwi_image("POS_Image", "bh", policy), NOW.to_string()).unwrap();
    assert!(matches!(image_flow_start(&mut w, "queued"), Action::Confirm(_)));
    call(w.advance(Reply::Answer(true)), "image.delete");
}

#[test]
fn unknown_image_status_is_fatal() {
    let policy = PollPolicy { interval_secs: 60, budget: 40 };
    let mut w = Workflow::new(build_kiwi_image("POS_Image", "bh", policy), NOW.to_string()).unwrap();
    match image_flow_start(&mut w, "vanished") {
        Action::Fail(Fault::UnknownImageStatus(st)) => assert_eq!(st, "vanished"),
        other => panic!("expected a fault, got {:?}", other),
    }
}

#[test]
fn new_image_is_scheduled_directly() {
    let policy = PollPolicy { interval_secs: 60, budget: 40 };
    let mut w = Workflow::new(build_kiwi_image("POS_Image", "bh", policy), NOW.to_string()).unwrap();
    call(w.advance(Reply::Begin), "system.getId");
    call(w.advance(Reply::Value(system_reply(5))), "image.listImages");
    call(w.advance(Reply::Value(WireValue::List(vec![]))), "image.scheduleImageBuild");
}

#[test]
fn retail_formulas_are_bound_then_pushed() {
    let steps = configure_retail_formulas("branch");
    assert_eq!(steps.len(), 9);
    assert!(matches!(&steps[0], Step::ResolveSystem(n) if n == "branch"));
    let expected = ["branch-network", "dhcpd", "pxe", "tftpd", "vsftpd", "image-synchronize", "bind"];
    match &steps[1] {
        Step::BindSystemFormulas(names) => assert_eq!(names, &expected.map(|n| n.to_string()).to_vec()),
        other => panic!("unexpected {:?}", other),
    }
    for (i, name) in expected.iter().enumerate() {
        assert!(matches!(&steps[2 + i], Step::PushSystemFormula(f) if f == name));
    }
    let mut w = Workflow::new(steps, NOW.to_string()).unwrap();
    call(w.advance(Reply::Begin), "system.getId");
    let r = call(w.advance(Reply::Value(system_reply(4))), "formula.setFormulasOfServer");
    assert!(matches!(&r.args[1], WireValue::List(l) if l.len() == 7));
    match w.advance(Reply::Value(WireValue::Int(1))) {
        Action::Load(f) => assert_eq!(f, "branch-network.json"),
        other => panic!("unexpected {:?}", other),
    }
    match w.advance(Reply::Text("{\"a\": null}".to_string())) {
        Action::Fail(Fault::Config(_)) => {}
        other => panic!("expected a configuration fault, got {:?}", other),
    }
}

#[test]
fn group_step_without_group_is_unresolved() {
    let mut w = Workflow::new(vec![Step::PushGroupFormula("saltboot".to_string())], NOW.to_string()).unwrap();
    assert!(matches!(w.advance(Reply::Begin), Action::Fail(Fault::Unresolved)));
}

#[test]
fn wrong_reply_kind_is_a_protocol_fault() {
    let mut w = Workflow::new(configure_saltboot("G"), NOW.to_string()).unwrap();
    call(w.advance(Reply::Begin), "systemgroup.listAllGroups");
    assert!(matches!(w.advance(Reply::Slept), Action::Fail(Fault::Protocol)));
}

#[test]
fn empty_scenario_is_done() {
    let mut w = Workflow::new(vec![], NOW.to_string()).unwrap();
    assert!(matches!(w.advance(Reply::Begin), Action::Done));
}

#[test]
fn activation_key_clone_request() {
    let r = clone_activation_key("1-base", "1-copy");
    assert_eq!(r.method, "activationkey.clone");
    assert!(matches!(&r.args[..], [WireValue::Str(a), WireValue::Str(b)] if a == "1-base" && b == "1-copy"));
    assert_eq!(r.expect, Shape::Str);
}

#[test]
fn malformed_listing_fails_the_scenario() {
    let mut w = Workflow::new(configure_saltboot("G"), NOW.to_string()).unwrap();
    call(w.advance(Reply::Begin), "systemgroup.listAllGroups");
    match w.advance(Reply::Value(WireValue::List(vec![WireValue::Int(3)]))) {
        Action::Fail(Fault::Session(_)) => {}
        other => panic!("expected a session fault, got {:?}", other),
    }
}

#[test]
fn scheduling_time_must_be_iso8601() {
    assert!(matches!(Workflow::new(vec![], "yesterday".to_string()), Err(Fault::BadTime)));
    assert!(Workflow::new(vec![], "2024-05-01T10:00:00.123456789+00:00".to_string()).is_ok());
}

#[test]
fn highstate_event_with_several_failures_fails() {
    let policy = PollPolicy { interval_secs: 1, budget: 5 };
    let mut w = Workflow::new(prepare_buildhost("bh", policy), NOW.to_string()).unwrap();
    call(w.advance(Reply::Begin), "system.getId");
    call(w.advance(Reply::Value(system_reply(5))), "system.getEntitlements");
    call(w.advance(Reply::Value(WireValue::List(vec![s("osimage_build_host")]))), "system.scheduleApplyHighstate");
    call(w.advance(Reply::Value(WireValue::Int(7))), "system.listSystemEvents");
    assert!(matches!(
        w.advance(Reply::Value(WireValue::List(vec![event(7, 2, 3)]))),
        Action::Fail(Fault::Job(PollState::Failed))
    ));
}
