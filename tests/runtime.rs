use flubber::bridge::{build_runtime, user_agent};
use flubber::modules::{declared_order, BuiltinModule};
use flubber::ops::{print_op_decl, ModuleInstallationError, OpDecl};
use flubber::permissions::{AllowAllPermissions, Capability, DenyListPermissions};
use flubber::runtime::{DrainStep, Phase, ScriptError, ScriptRuntime};

fn script_error(msg: &str) -> ScriptError {
    ScriptError { message: msg.to_string(), location: "main.ts:1:1".to_string() }
}

#[test]
fn zero_delay_timers_run_in_scheduled_order() {
    let mut rt = build_runtime(AllowAllPermissions);
    assert_eq!(rt.phase(), Phase::Constructed);
    assert_eq!(rt.modules(), declared_order());
    assert!(rt.has_op("op_print"));
    assert!(!rt.has_op("op_read"));
    assert!(rt.execute_entry(Ok(())).is_ok());
    for cb in [7u64, 3, 9, 1] {
        rt.schedule_timer(cb, 0);
    }
    let mut ran = Vec::new();
    loop {
        match rt.next_step() {
            DrainStep::Run(cb) => {
                ran.push(cb);
                assert!(rt.finish_continuation(Ok(())).is_ok());
            }
            DrainStep::Finished => break,
            other => panic!("unexpected {:?}", other),
        }
    }
    assert_eq!(ran, vec![7, 3, 9, 1]);
    assert_eq!(rt.phase(), Phase::Drained);
}

#[test]
fn earlier_timer_fires_first_and_ready_work_precedes_timers() {
    let mut rt = build_runtime(AllowAllPermissions);
    rt.execute_entry(Ok(())).unwrap();
    rt.schedule_timer(1, 50);
    rt.schedule_timer(2, 10);
    rt.enqueue(3);
    assert_eq!(rt.next_step(), DrainStep::Run(3));
    assert_eq!(rt.next_step(), DrainStep::Run(2));
    assert_eq!(rt.next_step(), DrainStep::Run(1));
    assert_eq!(rt.next_step(), DrainStep::Finished);
}

#[test]
fn drain_is_idempotent() {
    let mut rt = build_runtime(AllowAllPermissions);
    rt.execute_entry(Ok(())).unwrap();
    assert_eq!(rt.next_step(), DrainStep::Finished);
    assert_eq!(rt.phase(), Phase::Drained);
    assert_eq!(rt.next_step(), DrainStep::Finished);
    assert_eq!(rt.phase(), Phase::Drained);
}

#[test]
fn throwing_entry_faults_and_never_drains() {
    let mut rt = build_runtime(AllowAllPermissions);
    let r = rt.execute_entry(Err(script_error("boom")));
    assert_eq!(r.unwrap_err().message, "boom");
    assert_eq!(rt.phase(), Phase::Faulted);
    assert_eq!(rt.next_step(), DrainStep::Halted);
    assert_eq!(rt.phase(), Phase::Faulted);
}

#[test]
fn failing_continuation_faults_the_drain() {
    let mut rt = build_runtime(AllowAllPermissions);
    rt.execute_entry(Ok(())).unwrap();
    rt.enqueue(1);
    rt.enqueue(2);
    assert_eq!(rt.next_step(), DrainStep::Run(1));
    assert!(rt.finish_continuation(Err(script_error("late"))).is_err());
    assert_eq!(rt.phase(), Phase::Faulted);
    assert_eq!(rt.next_step(), DrainStep::Halted);
}

#[test]
fn denied_fetch_is_rejected_and_not_sent() {
    let gate = DenyListPermissions::deny_urls(vec!["https://blocked.example/".to_string()]);
    let mut rt = build_runtime(gate);
    rt.execute_entry(Ok(())).unwrap();
    let err = rt.start_fetch("https://blocked.example/", 1).unwrap_err();
    assert_eq!(err.capability, Capability::Network);
    assert_eq!(err.target, "https://blocked.example/");
    assert!(!rt.complete_fetch(1, 10));
    assert_eq!(rt.next_step(), DrainStep::Finished);
}

#[test]
fn allowed_fetch_keeps_the_loop_waiting_until_completion() {
    let mut rt = build_runtime(AllowAllPermissions);
    rt.execute_entry(Ok(())).unwrap();
    assert!(rt.start_fetch("https://open.example/", 4).is_ok());
    assert_eq!(rt.next_step(), DrainStep::AwaitNetwork);
    assert!(rt.complete_fetch(4, 40));
    assert!(!rt.complete_fetch(4, 40));
    assert_eq!(rt.next_step(), DrainStep::Run(40));
    assert_eq!(rt.next_step(), DrainStep::Finished);
}

#[test]
fn gate_is_consulted_for_time_and_reads() {
    let gate = DenyListPermissions {
        hrtime: false,
        denied_urls: vec![],
        denied_paths: vec!["/secret".to_string()],
    };
    let rt = build_runtime(gate);
    assert!(!rt.allow_hrtime());
    assert!(rt.check_read("/secret", "fetch").is_err());
    assert!(rt.check_read("/open", "fetch").is_ok());
}

#[test]
fn timer_delay_saturates() {
    let mut rt = build_runtime(AllowAllPermissions);
    rt.execute_entry(Ok(())).unwrap();
    rt.schedule_timer(1, u64::MAX);
    rt.schedule_timer(2, 5);
    assert_eq!(rt.next_step(), DrainStep::Run(2));
    assert_eq!(rt.next_step(), DrainStep::Run(1));
    assert_eq!(rt.next_step(), DrainStep::Finished);
}

#[test]
fn new_refuses_misordered_modules_and_duplicate_ops() {
    let bad_order = vec![BuiltinModule::Web];
    match ScriptRuntime::new(AllowAllPermissions, &bad_order, vec![print_op_decl()]) {
        Err(ModuleInstallationError::MissingPrerequisite { module, missing }) => {
            assert_eq!(module, BuiltinModule::Web);
            assert_eq!(missing, BuiltinModule::WebIdl);
        }
        _ => panic!("expected a missing prerequisite"),
    }
    let dup = vec![print_op_decl(), OpDecl { name: "op_print".to_string(), is_synchronous: true }];
    match ScriptRuntime::new(AllowAllPermissions, &declared_order(), dup) {
        Err(ModuleInstallationError::DuplicateOp(n)) => assert_eq!(n, "op_print"),
        _ => panic!("expected a duplicate op"),
    }
}

#[test]
fn user_agent_names_product_and_version() {
    assert_eq!(user_agent("0.1.0"), "flubber/0.1.0");
    assert_eq!(user_agent(""), "flubber/");
}
