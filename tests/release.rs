use fly::release::{LibSource, Release, boot_plan, cache_key};

fn release(libs: Option<Vec<&str>>) -> Release {
    Release {
        app: "Foo".to_string(),
        app_id: "foo".to_string(),
        version: "3".to_string(),
        source: "addEventListener('fetch', f)".to_string(),
        libs: libs.map(|v| v.into_iter().map(|s| s.to_string()).collect()),
        config: "{\"a\":1}".to_string(),
    }
}

#[test]
fn cache_key_joins_app_id_and_version() {
    assert_eq!(cache_key("foo", "3"), "foo:3");
    assert_eq!(cache_key("", ""), ":");
}

#[test]
fn boot_plan_loads_config_then_found_libs_then_app() {
    let rel = release(Some(vec!["a", "b", "c"]));
    let libs = vec![
        LibSource { name: "a".to_string(), source: Some("lib a".to_string()) },
        LibSource { name: "b".to_string(), source: None },
        LibSource { name: "c".to_string(), source: Some("lib c".to_string()) },
    ];
    let plan = boot_plan(&rel, &libs);
    let labels: Vec<&str> = plan.scripts.iter().map(|s| s.label.as_str()).collect();
    assert_eq!(labels, vec!["<app config>", "<lib:a>", "<lib:c>", "app.js"]);
    assert_eq!(plan.scripts[0].source, "window.fly.app = { config: {\"a\":1}, version: 3 };");
    assert_eq!(plan.scripts[1].source, "lib a");
    assert_eq!(plan.scripts[2].source, "lib c");
    assert_eq!(plan.scripts[3].source, "addEventListener('fetch', f)");
    assert_eq!(plan.missing_libs, vec!["b".to_string()]);
}

#[test]
fn boot_plan_without_libs() {
    let rel = release(None);
    let plan = boot_plan(&rel, &Vec::new());
    assert_eq!(plan.scripts.len(), 2);
    assert_eq!(plan.scripts[0].label, "<app config>");
    assert_eq!(plan.scripts[1].label, "app.js");
    assert!(plan.missing_libs.is_empty());
}
