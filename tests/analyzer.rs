use depscan::analyzer::{AnalysisError, Analyzer};
use depscan::models::{
    BuildTarget, Package, PackageDependency, Severity, SourceFile, SourceTree, Version,
};

fn version(major: u64, minor: u64, patch: u64) -> Version {
    Version { major, minor, patch, pre: String::new(), build: String::new() }
}

fn dep(name: &str, req: &str) -> PackageDependency {
    PackageDependency { name: name.to_string(), req: req.to_string(), features: vec![] }
}

fn target(kind: &str) -> BuildTarget {
    BuildTarget { name: "t".to_string(), kind: vec![kind.to_string()] }
}

fn package(name: &str, v: Version, deps: Vec<PackageDependency>, source: SourceTree) -> Package {
    Package { name: name.to_string(), version: v, dependencies: deps, targets: vec![target("lib")], source }
}

fn scenario() -> Vec<Package> {
    let mut app_foo = dep("libfoo", "*");
    app_foo.features = vec!["fast".to_string()];
    let app = package("app", version(0, 5, 0), vec![app_foo, dep("libbar", "1.2")], SourceTree::Missing);
    let foo_deps: Vec<PackageDependency> = (0..25).map(|i| dep(&format!("f{}", i), "1.0")).collect();
    let mut libfoo = package(
        "libfoo",
        version(1, 4, 2),
        foo_deps,
        SourceTree::Files(vec![SourceFile {
            path: "libfoo/src/lib.rs".to_string(),
            contents: Some("pub fn f() { unsafe { core() } }".to_string()),
        }]),
    );
    libfoo.targets = vec![target("lib"), target("custom-build")];
    let libbar = package("libbar", version(1, 2, 0), vec![], SourceTree::Missing);
    vec![app, libfoo, libbar]
}

#[test]
fn end_to_end_report() {
    let analyzer = Analyzer::new("Cargo.toml".to_string());
    let packages = scenario();
    let a = analyzer.analyze(&packages, Some(0)).unwrap();
    assert_eq!(a.total_dependencies, 2);

    assert_eq!(a.direct_dependencies.len(), 2);
    assert_eq!(a.direct_dependencies[0].name, "libfoo");
    assert_eq!(a.direct_dependencies[0].version, "*");
    assert_eq!(a.direct_dependencies[0].features, vec!["fast".to_string()]);
    assert_eq!(a.direct_dependencies[1].name, "libbar");
    assert_eq!(a.direct_dependencies[1].version, "1.2");
    assert!(a.direct_dependencies.iter().all(|d| d.is_direct && d.dependencies.is_empty()));

    assert_eq!(a.security_issues.len(), 2);
    let (app_name, app_issues) = &a.security_issues[0];
    assert_eq!(app_name, "app");
    assert_eq!(app_issues.len(), 2);
    assert_eq!(app_issues[0].severity, Severity::Low);
    assert_eq!(app_issues[0].description, "Package app is pre-1.0 (0.5.0) - API may be unstable");
    assert_eq!(app_issues[1].severity, Severity::High);
    assert_eq!(app_issues[1].description, "Wildcard dependency version for libfoo - security risk");
    assert_eq!(app_issues[1].affected_versions, vec!["0.5.0".to_string()]);

    let (foo_name, foo_issues) = &a.security_issues[1];
    assert_eq!(foo_name, "libfoo");
    let sev: Vec<Severity> = foo_issues.iter().map(|i| i.severity).collect();
    assert_eq!(sev, vec![Severity::Low, Severity::Medium, Severity::High]);
    assert_eq!(foo_issues[0].description, "Large number of dependencies (25) increases attack surface");
    assert_eq!(foo_issues[1].description, "Package libfoo contains build scripts - review for security");
    assert_eq!(
        foo_issues[2].description,
        "Contains unsafe blocks - review for memory safety in libfoo/src/lib.rs"
    );
}

#[test]
fn graph_has_every_package() {
    let analyzer = Analyzer::new("Cargo.toml".to_string());
    let packages = scenario();
    let a = analyzer.analyze(&packages, Some(0)).unwrap();
    assert_eq!(a.dependency_tree.len(), 3);
    assert_eq!(a.dependency_tree[0].0, "app");
    assert_eq!(a.dependency_tree[0].1, vec!["libfoo".to_string(), "libbar".to_string()]);
    assert_eq!(a.dependency_tree[1].0, "libfoo");
    assert_eq!(a.dependency_tree[1].1.len(), 25);
    assert_eq!(a.dependency_tree[1].1[24], "f24");
    assert_eq!(a.dependency_tree[2].0, "libbar");
    assert!(a.dependency_tree[2].1.is_empty());
}

#[test]
fn missing_root_is_an_error() {
    let analyzer = Analyzer::new("Cargo.toml".to_string());
    let packages = scenario();
    assert_eq!(analyzer.analyze(&packages, None).unwrap_err(), AnalysisError::RootNotFound);
    assert_eq!(analyzer.analyze(&packages, Some(3)).unwrap_err(), AnalysisError::RootNotFound);
    assert_eq!(analyzer.analyze(&vec![], Some(0)).unwrap_err(), AnalysisError::RootNotFound);
}

#[test]
fn root_alone_counts_zero_dependencies() {
    let analyzer = Analyzer::new("Cargo.toml".to_string());
    let packages = vec![package("solo", version(1, 0, 0), vec![], SourceTree::Missing)];
    let a = analyzer.analyze(&packages, Some(0)).unwrap();
    assert_eq!(a.total_dependencies, 0);
    assert!(a.direct_dependencies.is_empty());
    assert!(a.security_issues.is_empty());
    assert_eq!(a.dependency_tree.len(), 1);
}

#[test]
fn failed_package_scan_contributes_nothing() {
    let analyzer = Analyzer::new("Cargo.toml".to_string());
    let packages = vec![
        package("root", version(1, 0, 0), vec![dep("shaky", "0.1")], SourceTree::Missing),
        package("shaky", version(0, 1, 0), vec![], SourceTree::Unreadable),
    ];
    let a = analyzer.analyze(&packages, Some(0)).unwrap();
    assert_eq!(a.total_dependencies, 1);
    assert!(a.security_issues.is_empty());
    assert_eq!(a.dependency_tree.len(), 2);
}

#[test]
fn analyzer_keeps_manifest_path_and_default_rules() {
    let analyzer = Analyzer::new("some/Cargo.toml".to_string());
    assert_eq!(analyzer.manifest_path, "some/Cargo.toml");
    assert_eq!(analyzer.security_scanner.patterns.len(), 8);
    assert_eq!(analyzer.security_scanner.patterns[4].severity, Severity::Critical);
}
