use taurpc::command::{build_command, build_qualified_name, parse_command, starts_with_marker};
use taurpc::export::{args_map, get_export_path, router_args_maps, str_ends_with};
use taurpc::{
    build_dispatch_table, Arg, IpcMethod, MethodAttrs, Namespace, Procedures, ProceduresAttrs,
    RegistryError, Router, TauRpcHandler,
};

fn method(name: &str, args: &[&str]) -> IpcMethod {
    IpcMethod {
        name: name.to_string(),
        args: args.iter().map(|a| Arg::from_name(a.to_string())).collect(),
        attrs: MethodAttrs::default(),
    }
}

struct NoopHandler;

impl TauRpcHandler for NoopHandler {
    fn handle_incoming_request(&mut self, _method: &str, _payload: &Vec<u8>) -> Vec<u8> {
        Vec::new()
    }
}

#[test]
fn parse_command_splits_prefix_and_method() {
    let p = parse_command("TauRPC__a.b.method").unwrap();
    assert_eq!(p.prefix, "a.b");
    assert_eq!(p.method, "method");
    let p = parse_command("TauRPC__echo").unwrap();
    assert_eq!(p.prefix, "");
    assert_eq!(p.method, "echo");
    assert!(parse_command("echo").is_none());
    assert!(parse_command("TauRPC_x.y").is_none());
}

#[test]
fn build_command_round_trips() {
    let cmd = build_command("api.ui", "trigger");
    assert_eq!(cmd, "TauRPC__api.ui.trigger");
    assert!(starts_with_marker(cmd.as_str()));
    let p = parse_command(cmd.as_str()).unwrap();
    assert_eq!(p.prefix, "api.ui");
    assert_eq!(p.method, "trigger");
    assert_eq!(build_command("", "echo"), "TauRPC__echo");
    assert_eq!(build_qualified_name("events", "test_ev"), "events.test_ev");
    assert_eq!(build_qualified_name("", "test_ev"), "test_ev");
}

#[test]
fn alias_renames_and_skip_omits() {
    let with_alias = IpcMethod {
        name: "with_alias".to_string(),
        args: Vec::new(),
        attrs: MethodAttrs {
            skip: false,
            alias: Some("method_with_alias".to_string()),
            is_event: false,
        },
    };
    let skipped = IpcMethod {
        name: "hidden".to_string(),
        args: Vec::new(),
        attrs: MethodAttrs {
            skip: true,
            alias: None,
            is_event: false,
        },
    };
    let table = build_dispatch_table(vec![with_alias, skipped]).unwrap();
    assert_eq!(table.len(), 1);
    assert_eq!(table.entry(0).name, "method_with_alias");
}

#[test]
fn reserved_method_name_is_a_build_error() {
    let err = build_dispatch_table(vec![method("setup", &[])]).unwrap_err();
    assert_eq!(err, RegistryError::ReservedMethodName("setup".to_string()));
    let err = build_dispatch_table(vec![method("into_handler", &[])]).unwrap_err();
    assert_eq!(
        err,
        RegistryError::ReservedMethodName("into_handler".to_string())
    );
    let err = build_dispatch_table(vec![method("send_to", &[])]).unwrap_err();
    assert_eq!(err, RegistryError::ReservedMethodName("send_to".to_string()));
}

#[test]
fn duplicate_command_name_is_a_build_error() {
    let aliased = IpcMethod {
        name: "other".to_string(),
        args: Vec::new(),
        attrs: MethodAttrs {
            skip: false,
            alias: Some("echo".to_string()),
            is_event: false,
        },
    };
    let err = build_dispatch_table(vec![method("echo", &["x"]), aliased]).unwrap_err();
    assert_eq!(err, RegistryError::DuplicateMethodName("echo".to_string()));
}

#[test]
fn reserved_arguments_are_skipped_in_the_manifest() {
    let a = Arg::from_name("window".to_string());
    assert!(a.skip_type);
    let a = Arg::from_name("state".to_string());
    assert!(a.skip_type);
    let a = Arg::from_name("app_handle".to_string());
    assert!(a.skip_type);
    let a = Arg::from_name("webview_window".to_string());
    assert!(a.skip_type);
    let a = Arg::from_name("new_value".to_string());
    assert!(!a.skip_type);

    let table = build_dispatch_table(vec![method(
        "update_state",
        &["app_handle", "new_value"],
    )])
    .unwrap();
    assert_eq!(args_map(&table), r#"{"update_state":["new_value"]}"#);
}

#[test]
fn args_map_document_lists_ordered_argument_names() {
    let table =
        build_dispatch_table(vec![method("echo", &["x"]), method("add", &["a", "b"])]).unwrap();
    // Keys come out in sorted order; argument names keep declaration order.
    assert_eq!(args_map(&table), r#"{"add":["a","b"],"echo":["x"]}"#);

    let empty = build_dispatch_table(Vec::new()).unwrap();
    assert_eq!(args_map(&empty), "{}");
}

#[test]
fn router_args_maps_key_documents_by_prefix() {
    let mut router = Router::new();
    router
        .merge(Namespace {
            path_prefix: String::new(),
            display_name: "Api".to_string(),
            table: build_dispatch_table(vec![method("echo", &["x"])]).unwrap(),
            export_path: None,
            handler: NoopHandler,
        })
        .unwrap();
    router
        .merge(Namespace {
            path_prefix: "math".to_string(),
            display_name: "Math".to_string(),
            table: build_dispatch_table(vec![method("add", &["a", "b"])]).unwrap(),
            export_path: Some("../bindings.ts".to_string()),
            handler: NoopHandler,
        })
        .unwrap();
    let maps = router_args_maps(&router);
    assert_eq!(maps.len(), 2);
    assert_eq!(maps[0].0, "");
    assert_eq!(maps[0].1, r#"{"echo":["x"]}"#);
    assert_eq!(maps[1].0, "math");
    assert_eq!(maps[1].1, r#"{"add":["a","b"]}"#);
    assert_eq!(router.export_path().as_deref(), Some("../bindings.ts"));
}

#[test]
fn namespace_from_procedures_carries_attrs() {
    let procedures = Procedures {
        ident: "Api".to_string(),
        methods: vec![method("echo", &["x"])],
    };
    let attrs = ProceduresAttrs {
        event_trigger_ident: Some("ApiEventTrigger".to_string()),
        export_to: Some("../src/lib/bindings.ts".to_string()),
        path: "api.ui".to_string(),
    };
    let ns = Namespace::from_procedures(procedures, attrs, NoopHandler).unwrap();
    assert_eq!(ns.path_prefix, "api.ui");
    assert_eq!(ns.display_name, "Api");
    assert_eq!(ns.export_path.as_deref(), Some("../src/lib/bindings.ts"));
    assert_eq!(ns.table.len(), 1);
    assert_eq!(ns.table.entry(0).name, "echo");
    assert_eq!(ns.table.entry(0).arg_names, vec!["x".to_string()]);

    let defaults = ProceduresAttrs::default();
    assert_eq!(defaults.path, "");
    assert!(defaults.export_to.is_none());
    assert!(defaults.event_trigger_ident.is_none());

    let bad = Procedures {
        ident: "Api".to_string(),
        methods: vec![method("setup", &[])],
    };
    match Namespace::from_procedures(bad, ProceduresAttrs::default(), NoopHandler) {
        Err(err) => assert_eq!(err, RegistryError::ReservedMethodName("setup".to_string())),
        Ok(_) => panic!("a reserved method name must fail the build"),
    }
}

#[test]
fn export_path_resolution_and_validation() {
    assert_eq!(
        get_export_path(Some("../src/lib/bindings.ts"), "bindings.ts"),
        "../src/lib/bindings.ts"
    );
    assert_eq!(get_export_path(None, "bindings.ts"), "bindings.ts");
    assert!(str_ends_with("../src/lib/bindings.ts", ".ts"));
    assert!(!str_ends_with("../src/lib", ".ts"));
    assert!(!str_ends_with("ts", ".ts"));
    assert!(str_ends_with(
        "node_modules\\.taurpc\\index.ts",
        "node_modules\\.taurpc\\index.ts"
    ));
}
