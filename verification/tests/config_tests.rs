//! Candidate generation, first-match selection, and module aggregation.

use next_router::{
    extra_config, extra_configs, locate_first, middleware_files, next_configs, router_entry_asset,
    router_entry_path, ModuleHandle,
};

#[test]
fn config_candidates_in_selection_order() {
    let cs = next_configs();
    assert_eq!(cs, vec!["next.config.mjs".to_string(), "next.config.js".to_string()]);
}

#[test]
fn mjs_wins_when_both_configs_exist() {
    let cs = next_configs();
    let exists = vec![true, true];
    assert_eq!(locate_first(&cs, &exists), Some("next.config.mjs".to_string()));
}

#[test]
fn js_is_selected_only_when_mjs_is_absent() {
    let cs = next_configs();
    assert_eq!(locate_first(&cs, &vec![false, true]), Some("next.config.js".to_string()));
}

#[test]
fn middleware_candidates_for_js_ts() {
    let exts = vec!["js".to_string(), "ts".to_string()];
    let files = middleware_files(&exts);
    assert_eq!(
        files,
        vec![
            "middleware.js".to_string(),
            "middleware.ts".to_string(),
            "src/middleware.js".to_string(),
            "src/middleware.ts".to_string(),
        ]
    );
}

#[test]
fn middleware_candidates_for_no_extensions() {
    let files = middleware_files(&Vec::new());
    assert!(files.is_empty());
}

#[test]
fn locate_first_takes_list_order_not_any_other() {
    let names =
        vec!["middleware.js".to_string(), "middleware.ts".to_string(), "src/middleware.js".to_string()];
    assert_eq!(
        locate_first(&names, &vec![false, true, true]),
        Some("middleware.ts".to_string())
    );
    assert_eq!(locate_first(&names, &vec![false, false, false]), None);
    assert_eq!(locate_first(&Vec::new(), &Vec::new()), None);
}

#[test]
fn missing_config_contributes_an_empty_module_set() {
    assert_eq!(extra_config(None), Vec::<ModuleHandle>::new());
    assert_eq!(extra_config(Some(ModuleHandle(7))), vec![ModuleHandle(7)]);
}

#[test]
fn extra_configs_joins_config_before_middleware() {
    let joined = extra_configs(vec![ModuleHandle(1)], &vec![ModuleHandle(2), ModuleHandle(3)]);
    assert_eq!(joined, vec![ModuleHandle(1), ModuleHandle(2), ModuleHandle(3)]);
}

#[test]
fn router_entry_is_addressed_inside_the_project() {
    assert_eq!(router_entry_path("/home/user/proj"), "/home/user/proj/router.js");
    assert_eq!(router_entry_asset(), "entry/router.ts");
}
