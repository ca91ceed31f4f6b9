use installer_core::install::{name_less, InstallItem, InstallTask};
use installer_core::task::{compose, TaskDependency, TaskNode, TaskOrdering, TaskUnit};
use installer_core::version::{Version, VersionTarget};

fn named(name: &str) -> TaskUnit {
    TaskUnit::Named { name: name.to_string() }
}

fn leaf(name: &str) -> Box<TaskNode> {
    Box::new(TaskNode::leaf(named(name)))
}

fn names(plan: &[TaskUnit]) -> Vec<String> {
    plan.iter().map(|u| u.name()).collect()
}

#[test]
fn pre_pre_post_composes_in_order() {
    let root = TaskNode {
        unit: named("T"),
        dependencies: vec![
            TaskDependency::build(TaskOrdering::Pre, leaf("a")),
            TaskDependency::build(TaskOrdering::Pre, leaf("b")),
            TaskDependency::build(TaskOrdering::Post, leaf("c")),
        ],
    };
    assert_eq!(names(&compose(&root)), vec!["a", "b", "T", "c"]);
}

#[test]
fn empty_dependencies_compose_to_task_alone() {
    let root = TaskNode::leaf(named("T"));
    assert_eq!(names(&compose(&root)), vec!["T"]);
}

#[test]
fn nested_dependencies_expand_first() {
    let a = TaskNode {
        unit: named("a"),
        dependencies: vec![TaskDependency::build(TaskOrdering::Pre, leaf("x"))],
    };
    assert_eq!(names(&compose(&a)), vec!["x", "a"]);
    let root = TaskNode {
        unit: named("T"),
        dependencies: vec![
            TaskDependency::build(TaskOrdering::Pre, Box::new(a)),
            TaskDependency::build(TaskOrdering::Pre, leaf("b")),
            TaskDependency::build(TaskOrdering::Post, leaf("c")),
        ],
    };
    assert_eq!(names(&compose(&root)), vec!["x", "a", "b", "T", "c"]);
}

#[test]
fn post_dependencies_of_nested_tasks_follow_them() {
    let a = TaskNode {
        unit: named("a"),
        dependencies: vec![
            TaskDependency::build(TaskOrdering::Post, leaf("y")),
            TaskDependency::build(TaskOrdering::Pre, leaf("x")),
        ],
    };
    let root = TaskNode {
        unit: named("T"),
        dependencies: vec![
            TaskDependency::build(TaskOrdering::Post, leaf("c")),
            TaskDependency::build(TaskOrdering::Pre, Box::new(a)),
        ],
    };
    assert_eq!(names(&compose(&root)), vec!["x", "a", "y", "T", "c"]);
}

#[test]
fn shared_guard_runs_twice() {
    let a = TaskNode {
        unit: named("a"),
        dependencies: vec![TaskDependency::build(TaskOrdering::Pre, leaf("guard"))],
    };
    let b = TaskNode {
        unit: named("b"),
        dependencies: vec![TaskDependency::build(TaskOrdering::Pre, leaf("guard"))],
    };
    let root = TaskNode {
        unit: named("T"),
        dependencies: vec![
            TaskDependency::build(TaskOrdering::Pre, Box::new(a)),
            TaskDependency::build(TaskOrdering::Pre, Box::new(b)),
        ],
    };
    assert_eq!(names(&compose(&root)), vec!["guard", "a", "guard", "b", "T"]);
}

fn task(fresh: bool, force: bool) -> InstallTask {
    InstallTask {
        items: vec![
            InstallItem { name: "Bar".to_string(), version_target: VersionTarget::Latest },
            InstallItem {
                name: "Foo".to_string(),
                version_target: VersionTarget::Specific(Version::new_number(2)),
            },
        ],
        uninstall_items: vec!["Old".to_string()],
        fresh_install: fresh,
        create_desktop_shortcuts: true,
        force_install: force,
    }
}

#[test]
fn install_plan_plain() {
    let plan = task(false, false).plan();
    assert_eq!(
        names(&plan),
        vec![
            "EnsureOnlyInstanceTask",
            "VerifyInstallDirTask",
            "UninstallPackageTask",
            "InstallPackageTask",
            "InstallPackageTask",
            "InstallTask",
        ]
    );
    assert!(matches!(plan[1], TaskUnit::VerifyInstallDir { clean_install: false }));
    match &plan[2] {
        TaskUnit::UninstallPackage { name, optional } => {
            assert_eq!(name, "Old");
            assert!(!optional);
        }
        other => panic!("unexpected {:?}", other),
    }
    match &plan[4] {
        TaskUnit::InstallPackage { name, version_target, create_desktop_shortcuts } => {
            assert_eq!(name, "Foo");
            assert_eq!(*version_target, VersionTarget::Specific(Version::Number(2)));
            assert!(create_desktop_shortcuts);
        }
        other => panic!("unexpected {:?}", other),
    }
}

#[test]
fn install_plan_fresh_and_forced() {
    let plan = task(true, true).plan();
    assert_eq!(
        names(&plan),
        vec![
            "EnsureOnlyInstanceTask",
            "RemoveTargetDirTask",
            "VerifyInstallDirTask",
            "UninstallPackageTask",
            "InstallPackageTask",
            "InstallPackageTask",
            "SaveExecutableTask",
            "InstallGlobalShortcutsTask",
            "InstallTask",
            "LaunchOnExitTask",
        ]
    );
    assert!(matches!(plan[2], TaskUnit::VerifyInstallDir { clean_install: true }));
}

#[test]
fn install_task_reports_wrapping_up() {
    let t = task(false, false);
    let (message, value) = t.execute();
    assert_eq!(message.text, "Wrapping up...");
    assert_eq!(message.permille, 0);
    assert!(matches!(value, installer_core::task::TaskParamType::Nothing));
    assert_eq!(t.name(), "InstallTask");
    assert_eq!(t.dependencies().len(), 5);
}

#[test]
fn install_items_are_kept_in_name_order() {
    let mut t = InstallTask::new(false, false, false);
    for (name, n) in [("Zeta", 1), ("Alpha", 2), ("Mid", 3), ("Alpha", 4)] {
        t.add_item(InstallItem {
            name: name.to_string(),
            version_target: VersionTarget::Specific(Version::new_number(n)),
        });
    }
    let listed: Vec<(String, VersionTarget)> =
        t.items.iter().map(|i| (i.name.clone(), i.version_target)).collect();
    assert_eq!(
        listed,
        vec![
            ("Alpha".to_string(), VersionTarget::Specific(Version::Number(4))),
            ("Mid".to_string(), VersionTarget::Specific(Version::Number(3))),
            ("Zeta".to_string(), VersionTarget::Specific(Version::Number(1))),
        ]
    );
    let plan = t.plan();
    let installed: Vec<String> = plan
        .iter()
        .filter_map(|u| match u {
            TaskUnit::InstallPackage { name, .. } => Some(name.clone()),
            _ => None,
        })
        .collect();
    assert_eq!(installed, vec!["Alpha", "Mid", "Zeta"]);
}

#[test]
fn names_order_byte_by_byte() {
    let s = |x: &str| x.to_string();
    assert!(name_less(&s("a"), &s("b")));
    assert!(name_less(&s("ab"), &s("abc")));
    assert!(!name_less(&s("abc"), &s("ab")));
    assert!(!name_less(&s("same"), &s("same")));
    assert!(name_less(&s("Zeta"), &s("alpha")));
    assert!(name_less(&s(""), &s("x")));
}

#[test]
fn request_items_are_sorted_and_deduplicated() {
    let t = InstallTask::from_request(
        vec![
            InstallItem { name: "b".to_string(), version_target: VersionTarget::Latest },
            InstallItem { name: "a".to_string(), version_target: VersionTarget::Latest },
            InstallItem {
                name: "b".to_string(),
                version_target: VersionTarget::Specific(Version::new_number(7)),
            },
        ],
        vec!["old".to_string()],
        true,
        false,
        true,
    );
    let names: Vec<&str> = t.items.iter().map(|i| i.name.as_str()).collect();
    assert_eq!(names, vec!["a", "b"]);
    assert_eq!(t.items[1].version_target, VersionTarget::Specific(Version::Number(7)));
    assert_eq!(t.uninstall_items, vec!["old".to_string()]);
    assert!(t.fresh_install && t.force_install && !t.create_desktop_shortcuts);
}
