use ceres::asp::AspError;
use ceres::dispatch::{
    dispatch, dispatch_subcommand, find_command, module_failed, profile_selector, top_level_modules, Cause,
    ModuleErrorKind, ProfileSelector,
};

#[test]
fn registry_lists_modules() {
    let names = top_level_modules();
    assert_eq!(names, vec!["consul", "health", "infrastructure", "instances", "ops", "statuspages", "stories"]);
}

#[test]
fn dispatch_finds_registered_module() {
    let names = top_level_modules();
    assert_eq!(dispatch(&names, Some("instances")).unwrap(), 3);
    assert_eq!(find_command(&names, "stories"), Some(6));
}

#[test]
fn dispatch_unknown_command() {
    let names = top_level_modules();
    let e = dispatch(&names, Some("reboot")).unwrap_err();
    assert!(matches!(e.kind, ModuleErrorKind::NoSuchCommand(ref n) if n == "reboot"));
    assert!(e.cause.is_none());
    assert!(dispatch(&vec![], Some("consul")).is_err());
}

#[test]
fn dispatch_without_command() {
    let e = dispatch(&top_level_modules(), None).unwrap_err();
    assert!(matches!(e.kind, ModuleErrorKind::NoCommandSpecified));
}

#[test]
fn nested_dispatch() {
    let subs = vec!["asp".to_string()];
    let e = dispatch_subcommand("infrastructure", &subs, None).unwrap_err();
    assert!(matches!(e.kind, ModuleErrorKind::NoSubcommandSpecified(ref m) if m == "infrastructure"));
    assert_eq!(dispatch_subcommand("infrastructure", &subs, Some("asp")).unwrap(), 0);
    let e = dispatch_subcommand("infrastructure", &subs, Some("list")).unwrap_err();
    assert!(matches!(e.kind, ModuleErrorKind::NoSuchCommand(ref n) if n == "list"));
}

#[test]
fn module_failure_keeps_cause() {
    let e = module_failed("list", Cause::Discovery(AspError::NoLocalBaseDir));
    assert!(matches!(e.kind, ModuleErrorKind::ModuleFailed(ref m) if m == "list"));
    assert!(matches!(e.cause, Some(Cause::Discovery(AspError::NoLocalBaseDir))));
}

#[test]
fn profile_selection() {
    assert!(matches!(profile_selector("default"), ProfileSelector::Default));
    assert!(matches!(profile_selector("staging"), ProfileSelector::Named(ref n) if n == "staging"));
}
