use flubber::modules::{declared_order, BuiltinModule, ModuleSet};
use flubber::ops::{op_print, print_op_decl, LogSink, ModuleInstallationError, OpDecl, OpRegistry};

fn decl(name: &str) -> OpDecl {
    OpDecl { name: name.to_string(), is_synchronous: true }
}

#[test]
fn registering_an_op_twice_fails() {
    let mut reg = OpRegistry::new();
    assert!(reg.register(decl("op_print")).is_ok());
    match reg.register(decl("op_print")) {
        Err(ModuleInstallationError::DuplicateOp(n)) => assert_eq!(n, "op_print"),
        other => panic!("unexpected {:?}", other),
    }
    assert_eq!(reg.len(), 1);
    assert!(reg.contains("op_print"));
    assert!(!reg.contains("op_other"));
}

#[test]
fn from_decls_refuses_duplicates() {
    let r = OpRegistry::from_decls(vec![decl("a"), decl("b"), decl("a")]);
    match r {
        Err(ModuleInstallationError::DuplicateOp(n)) => assert_eq!(n, "a"),
        other => panic!("unexpected {:?}", other),
    }
    let ok = OpRegistry::from_decls(vec![decl("a"), decl("b")]).unwrap();
    assert_eq!(ok.len(), 2);
}

#[test]
fn print_op_writes_one_line() {
    let mut sink = LogSink::new();
    let returned: () = op_print(&mut sink, "hello".to_string());
    assert_eq!(returned, ());
    assert_eq!(sink.lines, vec!["hello".to_string()]);
}

#[test]
fn print_op_is_named_and_synchronous() {
    let d = print_op_decl();
    assert_eq!(d.name, "op_print");
    assert!(d.is_synchronous);
}

#[test]
fn declared_order_installs() {
    let order = declared_order();
    assert_eq!(
        order,
        vec![
            BuiltinModule::Console,
            BuiltinModule::WebIdl,
            BuiltinModule::Url,
            BuiltinModule::Web,
            BuiltinModule::Fetch
        ]
    );
    let set = ModuleSet::install_all(&order).unwrap();
    assert_eq!(set.modules(), order);
}

#[test]
fn url_before_webidl_fails() {
    let order = vec![BuiltinModule::Console, BuiltinModule::Url, BuiltinModule::WebIdl];
    match ModuleSet::install_all(&order) {
        Err(ModuleInstallationError::MissingPrerequisite { module, missing }) => {
            assert_eq!(module, BuiltinModule::Url);
            assert_eq!(missing, BuiltinModule::WebIdl);
        }
        other => panic!("unexpected {:?}", other),
    }
}

#[test]
fn fetch_before_web_fails() {
    let order = vec![
        BuiltinModule::Console,
        BuiltinModule::WebIdl,
        BuiltinModule::Url,
        BuiltinModule::Fetch,
        BuiltinModule::Web,
    ];
    match ModuleSet::install_all(&order) {
        Err(ModuleInstallationError::MissingPrerequisite { module, missing }) => {
            assert_eq!(module, BuiltinModule::Fetch);
            assert_eq!(missing, BuiltinModule::Web);
        }
        other => panic!("unexpected {:?}", other),
    }
}

#[test]
fn installing_a_module_twice_fails() {
    let mut set = ModuleSet::new();
    assert!(set.install(BuiltinModule::Console).is_ok());
    match set.install(BuiltinModule::Console) {
        Err(ModuleInstallationError::DuplicateModule(m)) => assert_eq!(m, BuiltinModule::Console),
        other => panic!("unexpected {:?}", other),
    }
    assert!(set.contains(BuiltinModule::Console));
    assert!(!set.contains(BuiltinModule::Web));
}
