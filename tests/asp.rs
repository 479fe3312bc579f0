use ceres::asp::{
    asps_from_dirs, find_asps, list_asps, manifest_path_of, resource_dir_of, select_base_dir, Asp,
    AspError, WalkEntry,
};
use ceres::path::{contains_str, PathComponent};

fn found(p: &str) -> WalkEntry {
    WalkEntry::Found(p.to_string())
}

/// A walk of `base` holding `n` complete resource trees, plus files that do
/// not make a resource.
fn fixture(base: &str, n: usize) -> (Vec<WalkEntry>, Vec<String>) {
    let mut entries = vec![found(base)];
    let mut manifests = Vec::new();
    for i in 0..n {
        let project = format!("{}/project{}", base, i);
        let resources = format!("{}/ansible-setup-package/resources", project);
        let resource = format!("{}/resource{}", resources, i);
        entries.push(found(&project));
        entries.push(found(&format!("{}/ansible-setup-package", project)));
        entries.push(found(&resources));
        entries.push(found(&format!("{}/project.cfg", resources)));
        entries.push(found(&resource));
        entries.push(found(&format!("{}/Makefile", resource)));
        entries.push(found(&format!("{}/main.yml", resource)));
        manifests.push(format!("{}/project.cfg", resources));
    }
    // A Makefile outside the resources folder.
    entries.push(found(&format!("{}/tools/Makefile", base)));
    // A resource whose project has no manifest.
    entries.push(found(&format!("{}/orphan/ansible-setup-package/resources/lost/Makefile", base)));
    (entries, manifests)
}

#[test]
fn find_asps_okay() {
    let path = "tests/base_dir";
    let (entries, manifests) = fixture(path, 22);

    let asp_paths = find_asps(&entries, &manifests);

    assert!(asp_paths.is_ok());
    assert_eq!(asp_paths.unwrap().len(), 22);
}

#[test]
fn asp_from_path_okay() {
    let path = "logimon/ansible-setup-package/resources/elk_elasticsearch";

    let asp_res = Asp::from_path(path);
    assert!(asp_res.is_ok());

    let asp = asp_res.unwrap();
    assert_eq!(asp.project, "logimon".to_owned());
    assert_eq!(asp.resource, "elk_elasticsearch".to_owned());
}

#[test]
fn asp_from_path_needs_four_normal_components() {
    for bad in ["logimon/resources/elk", "a/b/c/d/e", "/a/b/c", "../b/c/d", "a/../c/d", ""] {
        match Asp::from_path(bad) {
            Err(AspError::FailedParseAspFromPath(p)) => assert_eq!(p, bad),
            other => panic!("unexpected {:?} for {}", other, bad),
        }
    }
}

#[test]
fn asp_from_path_ignores_middle_names() {
    let asp = Asp::from_path("proj/x/y/res/").unwrap();
    assert_eq!(asp.project, "proj");
    assert_eq!(asp.resource, "res");
}

#[test]
fn asp_from_components_takes_first_and_last() {
    let cs = vec![
        PathComponent::Normal("p".to_string()),
        PathComponent::Normal("m".to_string()),
        PathComponent::Normal("n".to_string()),
        PathComponent::Normal("r".to_string()),
    ];
    let asp = Asp::from_components("p/m/n/r", &cs).unwrap();
    assert_eq!((asp.project.as_str(), asp.resource.as_str()), ("p", "r"));
    let cs = vec![
        PathComponent::Normal("p".to_string()),
        PathComponent::ParentDir,
        PathComponent::Normal("n".to_string()),
        PathComponent::Normal("r".to_string()),
    ];
    assert!(Asp::from_components("p/../n/r", &cs).is_err());
}

#[test]
fn find_asps_keeps_only_complete_resources() {
    let (entries, manifests) = fixture("/srv/base", 3);
    let dirs = find_asps(&entries, &manifests).unwrap();
    assert_eq!(
        dirs,
        vec![
            "/srv/base/project0/ansible-setup-package/resources/resource0".to_string(),
            "/srv/base/project1/ansible-setup-package/resources/resource1".to_string(),
            "/srv/base/project2/ansible-setup-package/resources/resource2".to_string(),
        ]
    );
}

#[test]
fn find_asps_empty_walk() {
    assert_eq!(find_asps(&vec![], &vec![]).unwrap().len(), 0);
}

#[test]
fn find_asps_fails_on_walk_error() {
    let (mut entries, manifests) = fixture("base", 2);
    entries.insert(3, WalkEntry::Failed("permission denied".to_string()));
    entries.push(WalkEntry::Failed("later".to_string()));
    match find_asps(&entries, &manifests) {
        Err(AspError::FailedToFindAsps(m)) => assert_eq!(m, "permission denied"),
        other => panic!("unexpected {:?}", other),
    }
}

#[test]
fn resource_dir_of_checks_name_and_folder() {
    assert_eq!(
        resource_dir_of("b/p/ansible-setup-package/resources/r/Makefile"),
        Some("b/p/ansible-setup-package/resources/r".to_string())
    );
    assert_eq!(resource_dir_of("b/p/ansible-setup-package/resources/r/Makefile.bak"), None);
    assert_eq!(resource_dir_of("b/p/other/resources/r/Makefile"), None);
    assert_eq!(resource_dir_of("Makefile"), None);
}

#[test]
fn manifest_lies_beside_resource() {
    assert_eq!(
        manifest_path_of("b/p/ansible-setup-package/resources/r"),
        "b/p/ansible-setup-package/resources/project.cfg"
    );
}

#[test]
fn list_asps_parses_relative_to_base() {
    let (entries, manifests) = fixture("/srv/base", 2);
    let asps = list_asps("/srv/base", &entries, &manifests).unwrap();
    assert_eq!(asps.len(), 2);
    assert_eq!(asps[1].project, "project1");
    assert_eq!(asps[1].resource, "resource1");
}

#[test]
fn asps_from_dirs_reports_bad_shape() {
    let dirs = vec!["/b/p/x/y/r".to_string(), "/b/p/r".to_string(), "/elsewhere/q".to_string()];
    match asps_from_dirs("/b", &dirs) {
        Err(AspError::FailedParseAspFromPath(p)) => assert_eq!(p, "p/r"),
        other => panic!("unexpected {:?}", other),
    }
    let dirs = vec!["/elsewhere/q/a/b/c".to_string(), "/b/p/x/y/r".to_string()];
    let asps = asps_from_dirs("/b", &dirs).unwrap();
    assert_eq!(asps.len(), 1);
    assert_eq!(asps[0].project, "p");
}

#[test]
fn base_dir_selection() {
    assert_eq!(select_base_dir(Some("a".into()), Some("b".into())).unwrap(), "a");
    assert_eq!(select_base_dir(None, Some("b".into())).unwrap(), "b");
    assert!(matches!(select_base_dir(None, None), Err(AspError::NoLocalBaseDir)));
}

#[test]
fn path_rules_come_from_std() {
    // Components: a trailing slash and a `.` inside the path are not components.
    let asp = Asp::from_path("p/./m/n/r/").unwrap();
    assert_eq!((asp.project.as_str(), asp.resource.as_str()), ("p", "r"));
    assert!(Asp::from_path("/p/m/r").is_err());
    // Parent: the resource directory is the Makefile's parent, not the path itself.
    assert_eq!(
        resource_dir_of("/x/ansible-setup-package/resources/r/Makefile").as_deref(),
        Some("/x/ansible-setup-package/resources/r")
    );
    // Join: the manifest name is appended below the parent.
    assert_eq!(manifest_path_of("/x/resources/r"), "/x/resources/project.cfg");
    // Strip: the base is removed from the front.
    let asps = asps_from_dirs("/srv/base", &vec!["/srv/base/p/a/b/r".to_string()]).unwrap();
    assert_eq!(asps[0].project, "p");
}

#[test]
fn substring_search() {
    assert!(contains_str("a/ansible-setup-package/resources/b", "ansible-setup-package/resources"));
    assert!(!contains_str("ansible-setup-package/resource", "ansible-setup-package/resources"));
    assert!(contains_str("abc", ""));
    assert!(!contains_str("", "a"));
}
