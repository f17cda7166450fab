use oobe::jwt::foo::{create_foo, delete_foo, get_all_foos, get_foo, patch_foo, update_foo, FooStore};
use oobe::plugins::dispatch::{
    method_supported, parse_http_method, response_status, route_plugin_call, select_resource, ApiResource, HttpMethod,
};
use oobe::plugins::metadata::{default_visible_in_ui, prepare_plugin_binary, BinaryAction, PluginMetadata};
use oobe::plugins::paths::{download_filename, join_path_str, resolve_plugin_binary_path, resolve_plugin_filename, TargetOs};
use oobe::plugins::plan::{
    ExecutionPlanLoader, ExecutionPlanUpdater, PlanError, PlanGeneral, PlanHandoffs, PlanLoadSource, PluginExecutionPlan,
    PluginField, UpdateStep,
};
use oobe::plugins::registry::{PluginBinding, PluginRegistry};
use oobe::store::KeyedStore;

fn meta(name: &str, route: &str, kind: &str, base: &str) -> PluginMetadata {
    PluginMetadata {
        name: name.to_string(),
        plugin_route: route.to_string(),
        version: "1.0.0".to_string(),
        plugin_location_type: kind.to_string(),
        plugin_base_path: base.to_string(),
        team_name: "team".to_string(),
        engineering_contact_email: "eng@example.com".to_string(),
        operation_contact_email: "ops@example.com".to_string(),
        run_async: false,
        visible_in_ui: true,
        plugin_description: "d".to_string(),
        run_after_event_name: None,
        completed_event_name: None,
    }
}

fn binding(name: &str, route: &str, handle: u64) -> PluginBinding {
    PluginBinding {
        name: name.to_string(),
        plugin_route: route.to_string(),
        static_path: format!("{}/web", route),
        handle,
    }
}

fn general(from: &str) -> PlanGeneral {
    PlanGeneral {
        update_from: from.to_string(),
        update_path_root: "s3://bucket/plans/".to_string(),
        product_family: "family".to_string(),
        execution_plan_version: "2.1".to_string(),
    }
}

#[test]
fn foo_crud_round_trip() {
    let mut store: FooStore = KeyedStore::new();
    let f = create_foo(&mut store, "1".to_string(), "first".to_string(), "src".to_string(), 10);
    assert_eq!(f.name, "first");
    assert_eq!(get_foo(&store, "1").ok().expect("found").source, "src");
    let u = update_foo(&mut store, "1", "renamed".to_string(), "s2".to_string(), 20).ok().expect("updated");
    assert_eq!(u.name, "renamed");
    assert_eq!(u.timestamp, 20);
    let p = patch_foo(&mut store, "1", None, Some("s3".to_string()), 30).ok().expect("patched");
    assert_eq!(p.name, "renamed");
    assert_eq!(p.source, "s3");
    create_foo(&mut store, "2".to_string(), "second".to_string(), "x".to_string(), 40);
    let all = get_all_foos(&store);
    assert_eq!(all.len(), 2);
    assert_eq!(all[0].id, "1");
    assert_eq!(all[1].id, "2");
    let d = delete_foo(&mut store, "1").ok().expect("deleted");
    assert_eq!(d.message, "Foo deleted successfully");
    assert_eq!(d.id, "1");
    assert_eq!(get_foo(&store, "1").err().expect("gone").message, "Foo with id 1 not found");
}

#[test]
fn foo_missing_record_errors() {
    let mut store: FooStore = KeyedStore::new();
    assert_eq!(
        update_foo(&mut store, "9", "n".to_string(), "s".to_string(), 1).err().expect("missing").message,
        "Foo with id 9 not found"
    );
    assert!(patch_foo(&mut store, "9", None, None, 1).is_err());
    assert!(delete_foo(&mut store, "9").is_err());
    assert_eq!(store.key_count(), 0);
}

#[test]
fn plugin_file_names_per_platform() {
    assert_eq!(resolve_plugin_filename("plugin_wifi", TargetOs::Windows), "plugin_wifi.dll");
    assert_eq!(resolve_plugin_filename("plugin_wifi", TargetOs::MacOs), "libplugin_wifi.dylib");
    assert_eq!(resolve_plugin_filename("plugin_wifi", TargetOs::Other), "libplugin_wifi.so");
    assert_eq!(resolve_plugin_binary_path("./plugins", "plugin_wifi", TargetOs::Other), "./plugins/libplugin_wifi.so");
    assert!(default_visible_in_ui());
}

#[test]
fn path_joining_follows_pathbuf_push() {
    assert_eq!(join_path_str("dir", "f.so", TargetOs::Other), "dir/f.so");
    assert_eq!(join_path_str("dir/", "f.so", TargetOs::Other), "dir/f.so");
    assert_eq!(join_path_str("", "f.so", TargetOs::Other), "f.so");
    assert_eq!(join_path_str("dir", "/abs/f.so", TargetOs::Other), "/abs/f.so");
    assert_eq!(join_path_str("C:\\plugins", "x.dll", TargetOs::Windows), "C:\\plugins\\x.dll");
    assert_eq!(join_path_str("C:", "x.dll", TargetOs::Windows), "C:x.dll");
    assert_eq!(join_path_str("C:\\plugins", "\\x.dll", TargetOs::Windows), "C:\\x.dll");
    assert_eq!(join_path_str("C:\\plugins", "D:\\x.dll", TargetOs::Windows), "D:\\x.dll");
    assert_eq!(join_path_str("dir/", "x.dll", TargetOs::Windows), "dir/x.dll");
}

#[test]
fn download_file_name_is_last_url_segment() {
    assert_eq!(download_filename("https://host/a/b/libp.so"), "libp.so");
    assert_eq!(download_filename("libp.so"), "libp.so");
    assert_eq!(download_filename("https://host/a/"), "");
}

#[test]
fn plugin_binary_preparation() {
    let local = meta("p", "r", "local", "/opt/plugins");
    match prepare_plugin_binary(&local, false, TargetOs::Other).ok().expect("ok") {
        BinaryAction::UseExeDir(f) => assert_eq!(f, "libp.so"),
        _ => panic!("without write permission the exe folder is used"),
    }
    match prepare_plugin_binary(&local, true, TargetOs::Other).ok().expect("ok") {
        BinaryAction::CopyToExeDir(p) => assert_eq!(p, "/opt/plugins/libp.so"),
        _ => panic!("local copies"),
    }
    let s3 = meta("p", "r", "s3", "https://bucket/bin");
    match prepare_plugin_binary(&s3, true, TargetOs::Windows).ok().expect("ok") {
        BinaryAction::Download(u) => assert_eq!(u, "https://bucket/bin\\p.dll"),
        _ => panic!("s3 downloads"),
    }
    let ftp = meta("p", "r", "ftp", "x");
    assert_eq!(prepare_plugin_binary(&ftp, true, TargetOs::Other).err().expect("refused"), "Unsupported plugin location type 'ftp'");
    assert_eq!(local.resolved_local_path(TargetOs::MacOs), "/opt/plugins/libp.dylib");
}

#[test]
fn plugin_validation_reports_first_problem() {
    assert!(ExecutionPlanLoader::validate_plugin(&meta("p", "r", "local", "b"), 0).is_ok());
    let e = ExecutionPlanLoader::validate_plugin(&meta("  ", "r", "local", "b"), 3).err().expect("missing");
    assert!(e == PlanError::MissingField { index: 3, field: PluginField::FullName });
    assert_eq!(e.message(), "Plugin at index 3 is missing 'full_name'");
    let e = ExecutionPlanLoader::validate_plugin(&meta("p", "r", "unc", "b"), 1).err().expect("bad kind");
    assert_eq!(e.message(), "Plugin at index 1 has invalid 'plugin_location_type': must be 'local' or 's3'");
    let e = ExecutionPlanLoader::validate_plugin(&meta("p", "r", "s3", ""), 0).err().expect("no path");
    assert_eq!(e.message(), "Plugin at index 0 is missing 'plugin_location_path'");
    let mut m = meta("p", "r", "local", "b");
    m.operation_contact_email = "\t".to_string();
    assert_eq!(
        ExecutionPlanLoader::validate_plugin(&m, 0).err().expect("no email").message(),
        "Plugin at index 0 is missing 'operation_contact_email'"
    );
    let plan = PluginExecutionPlan {
        plugins: vec![meta("a", "a", "local", "b"), meta("b", "", "local", "b"), meta("", "c", "local", "b")],
        general: general("s3"),
        handoffs: PlanHandoffs { handoff_events: vec![] },
    };
    assert_eq!(ExecutionPlanLoader::validate_plan(&plan).err().expect("bad").message(), "Plugin at index 1 is missing 'plugin_route'");
}

#[test]
fn plan_update_path_and_steps() {
    assert_eq!(
        ExecutionPlanUpdater::build_remote_path("s3://bucket/plans//", "fam", "1.0"),
        "s3://bucket/plans/fam/1.0/execution_plan.toml"
    );
    match ExecutionPlanUpdater::plan_update_step(&general("s3")) {
        UpdateStep::Download(u) => assert_eq!(u, "s3://bucket/plans/family/2.1/execution_plan.toml"),
        _ => panic!("s3 downloads"),
    }
    match ExecutionPlanUpdater::plan_update_step(&general("unc")) {
        UpdateStep::CheckOverride(p) => assert_eq!(p, "s3://bucket/plans/family/2.1/execution_plan.toml"),
        _ => panic!("unc checks the override"),
    }
    let step = ExecutionPlanUpdater::plan_update_step(&general("ftp"));
    let r = ExecutionPlanUpdater::settle_plan_source("plan.toml", step, None, false);
    assert_eq!(r.err().expect("unsupported"), "Unsupported update_from value: ftp");
    let step = ExecutionPlanUpdater::plan_update_step(&general("s3"));
    match ExecutionPlanUpdater::settle_plan_source("plan.toml", step, None, false).ok().expect("ok") {
        PlanLoadSource::LocalFallback(p) => assert_eq!(p, "plan.toml"),
        PlanLoadSource::Remote(_) => panic!("failed download falls back"),
    }
    let step = ExecutionPlanUpdater::plan_update_step(&general("local"));
    let src = ExecutionPlanUpdater::settle_plan_source("plan.toml", step, None, true).ok().expect("ok");
    assert!(src.allows_write());
    assert_eq!(src.path(), "s3://bucket/plans/family/2.1/execution_plan.toml");
}

#[test]
fn plan_subscriptions_in_order() {
    let mut a = meta("a", "alpha", "local", "b");
    a.run_after_event_name = Some("Go".to_string());
    let plan = PluginExecutionPlan {
        plugins: vec![a, meta("b", "beta", "local", "b")],
        general: general("s3"),
        handoffs: PlanHandoffs { handoff_events: vec!["H1".to_string(), "H2".to_string(), "H3".to_string()] },
    };
    let subs = oobe::plugins::plan::plan_subscriptions(&plan);
    let got: Vec<(String, String)> = subs.into_iter().map(|s| (s.event, s.route)).collect();
    assert_eq!(
        got,
        vec![
            ("H1".to_string(), "/provision/web".to_string()),
            ("H2".to_string(), "/finish/web".to_string()),
            ("Go".to_string(), "alpha/web".to_string()),
            ("None".to_string(), "beta/web".to_string()),
        ]
    );
}

#[test]
fn registry_finds_by_name_and_route() {
    let mut reg = PluginRegistry::new();
    reg.register(binding("plugin_wifi", "wifi", 1));
    reg.register(binding("plugin_terms", "terms", 2));
    assert_eq!(reg.get("plugin_wifi").expect("by name").handle, 1);
    assert_eq!(reg.get_by_route("terms").expect("by route").name, "plugin_terms");
    assert!(reg.get("wifi").is_none());
    reg.register(binding("plugin_wifi", "wifi", 7));
    let all = reg.all();
    assert_eq!(all.len(), 2);
    assert_eq!(all[0].handle, 7);
    assert_eq!(all[1].name, "plugin_terms");
}

#[test]
fn dispatch_routes_and_refusals() {
    let mut reg = PluginRegistry::new();
    reg.register(binding("plugin_wifi", "wifi", 1));
    let e = route_plugin_call(&reg, "nope", "GET").err().expect("missing");
    assert_eq!((e.status, e.message.as_str()), (404, "Plugin not found"));
    let e = route_plugin_call(&reg, "plugin_wifi", "GET").err().expect("names are not routes");
    assert_eq!((e.status, e.message.as_str()), (404, "Plugin not found"));
    let e = route_plugin_call(&reg, "wifi", "PATCH").err().expect("method");
    assert_eq!((e.status, e.message.as_str()), (405, "Unsupported method"));
    let (b, m) = route_plugin_call(&reg, "wifi", "POST").ok().expect("routed");
    assert_eq!(b.handle, 1);
    assert_eq!(b.name, "plugin_wifi");
    assert!(m == HttpMethod::Post);
    assert!(parse_http_method("get").is_none());

    let resources = vec![
        ApiResource { path: "scan".to_string(), supported_methods: vec![HttpMethod::Get] },
        ApiResource { path: "network".to_string(), supported_methods: vec![HttpMethod::Get, HttpMethod::Post] },
    ];
    assert_eq!(select_resource(&resources, "network", HttpMethod::Post).ok().expect("found"), 1);
    let e = select_resource(&resources, "scan", HttpMethod::Delete).err().expect("not allowed");
    assert_eq!((e.status, e.message.as_str()), (405, "Method not allowed"));
    let e = select_resource(&resources, "missing", HttpMethod::Get).err().expect("missing");
    assert_eq!((e.status, e.message.as_str()), (404, "Resource not found"));
    let e = select_resource(&vec![], "scan", HttpMethod::Get).err().expect("none");
    assert_eq!((e.status, e.message.as_str()), (404, "No API resources found"));
}

#[test]
fn method_support_is_list_membership() {
    assert!(method_supported(&vec![HttpMethod::Get, HttpMethod::Put], HttpMethod::Put));
    assert!(method_supported(&vec![HttpMethod::Post, HttpMethod::Put], HttpMethod::Put));
    assert!(method_supported(&vec![HttpMethod::Post, HttpMethod::Get], HttpMethod::Get));
    assert!(!method_supported(&vec![HttpMethod::Post, HttpMethod::Put], HttpMethod::Delete));
    assert!(!method_supported(&vec![], HttpMethod::Get));
    let resources = vec![ApiResource {
        path: "network".to_string(),
        supported_methods: vec![HttpMethod::Post, HttpMethod::Put],
    }];
    assert_eq!(select_resource(&resources, "network", HttpMethod::Put).ok().expect("listed"), 0);
}

#[test]
fn plugin_status_codes() {
    assert_eq!(response_status(201), 201);
    assert_eq!(response_status(0), 200);
    assert_eq!(response_status(1000), 200);
}

#[test]
fn dispatch_picks_first_resource_with_the_path() {
    let resources = vec![
        ApiResource { path: "dup".to_string(), supported_methods: vec![HttpMethod::Delete] },
        ApiResource { path: "dup".to_string(), supported_methods: vec![HttpMethod::Post] },
    ];
    let e = select_resource(&resources, "dup", HttpMethod::Post).err().expect("first one decides");
    assert_eq!(e.status, 405);
    assert_eq!(select_resource(&resources, "dup", HttpMethod::Delete).ok().expect("first"), 0);
}
