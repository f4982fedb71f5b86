use depscan::models::{
    BuildTarget, Package, PackageDependency, SecurityIssue, Severity, SourceFile, SourceTree,
    Version,
};
use depscan::scanner::{has_custom_build_target, Rule, ScanError, SecurityScanner};
use depscan::text::{contains_char, decimal_string, has_source_extension};

fn version(major: u64, minor: u64, patch: u64) -> Version {
    Version { major, minor, patch, pre: String::new(), build: String::new() }
}

fn dep(name: &str, req: &str) -> PackageDependency {
    PackageDependency { name: name.to_string(), req: req.to_string(), features: vec![] }
}

fn target(kind: &str) -> BuildTarget {
    BuildTarget { name: "t".to_string(), kind: vec![kind.to_string()] }
}

fn package(name: &str, v: Version, deps: Vec<PackageDependency>, source: SourceTree) -> Package {
    Package { name: name.to_string(), version: v, dependencies: deps, targets: vec![target("lib")], source }
}

fn file(path: &str, text: &str) -> SourceFile {
    SourceFile { path: path.to_string(), contents: Some(text.to_string()) }
}

fn descriptions(issues: &[SecurityIssue]) -> Vec<String> {
    issues.iter().map(|i| i.description.clone()).collect()
}

#[test]
fn pre_release_finding_for_major_zero() {
    let s = SecurityScanner::new();
    let p = package("alpha", version(0, 3, 1), vec![], SourceTree::Missing);
    let issues = s.scan_package(&p).unwrap();
    assert_eq!(issues.len(), 1);
    assert_eq!(issues[0].severity, Severity::Low);
    assert_eq!(issues[0].description, "Package alpha is pre-1.0 (0.3.1) - API may be unstable");
    assert_eq!(issues[0].affected_versions, vec!["0.3.1".to_string()]);
    assert!(issues[0].fix_version.is_none());
}

#[test]
fn no_pre_release_finding_from_major_one() {
    let s = SecurityScanner::new();
    let p = package("beta", version(1, 0, 0), vec![], SourceTree::Missing);
    assert!(s.scan_package(&p).unwrap().is_empty());
}

#[test]
fn dependency_count_boundary() {
    let s = SecurityScanner::new();
    let twenty: Vec<PackageDependency> = (0..20).map(|i| dep(&format!("d{}", i), "1")).collect();
    let p = package("twenty", version(1, 0, 0), twenty, SourceTree::Missing);
    assert!(s.scan_package(&p).unwrap().is_empty());

    let many: Vec<PackageDependency> = (0..21).map(|i| dep(&format!("d{}", i), "1")).collect();
    let p = package("many", version(2, 1, 0), many, SourceTree::Missing);
    let issues = s.scan_package(&p).unwrap();
    assert_eq!(issues.len(), 1);
    assert_eq!(issues[0].severity, Severity::Low);
    assert_eq!(issues[0].description, "Large number of dependencies (21) increases attack surface");
    assert_eq!(issues[0].affected_versions, vec!["2.1.0".to_string()]);
}

#[test]
fn one_wildcard_finding_per_wildcard_dependency() {
    let s = SecurityScanner::new();
    let deps = vec![dep("a", "*"), dep("b", "1.2"), dep("c", "1.*"), dep("d", "^0.4")];
    let p = package("host", version(3, 2, 1), deps, SourceTree::Missing);
    let issues = s.scan_package(&p).unwrap();
    assert_eq!(
        descriptions(&issues),
        vec![
            "Wildcard dependency version for a - security risk".to_string(),
            "Wildcard dependency version for c - security risk".to_string(),
        ]
    );
    for i in &issues {
        assert_eq!(i.severity, Severity::High);
        assert_eq!(i.affected_versions, vec!["3.2.1".to_string()]);
    }
}

#[test]
fn build_script_finding_once() {
    let s = SecurityScanner::new();
    let mut p = package("builder", version(1, 0, 0), vec![], SourceTree::Missing);
    p.targets = vec![target("custom-build"), target("lib"), target("custom-build")];
    let issues = s.scan_package(&p).unwrap();
    assert_eq!(issues.len(), 1);
    assert_eq!(issues[0].severity, Severity::Medium);
    assert_eq!(issues[0].description, "Package builder contains build scripts - review for security");
    assert!(has_custom_build_target(&p));
}

#[test]
fn source_rules_fire_per_file() {
    let s = SecurityScanner::new();
    let mut issues = Vec::new();
    s.scan_file("src/lib.rs", "fn f() { unsafe { g() } }\nuse std::process::Command;", &mut issues);
    assert_eq!(
        descriptions(&issues),
        vec![
            "Contains unsafe blocks - review for memory safety in src/lib.rs".to_string(),
            "Process execution capabilities - review for command injection in src/lib.rs".to_string(),
        ]
    );
    assert_eq!(issues[0].severity, Severity::High);
    assert!(issues[0].affected_versions.is_empty());
    assert!(issues[0].fix_version.is_none());
}

#[test]
fn every_default_rule_fires() {
    let s = SecurityScanner::new();
    let text = "unsafe{}\nstd::mem::transmute\n#![no_std]\nextern C\neval (\nstd::process::Command\nstd::fs::remove_file\nTcpListener::bind";
    let mut issues = Vec::new();
    s.scan_file("x.rs", text, &mut issues);
    let sev: Vec<Severity> = issues.iter().map(|i| i.severity).collect();
    assert_eq!(
        sev,
        vec![
            Severity::High,
            Severity::High,
            Severity::Medium,
            Severity::Medium,
            Severity::Critical,
            Severity::High,
            Severity::Medium,
            Severity::Medium
        ]
    );
}

#[test]
fn clean_file_has_no_findings() {
    let s = SecurityScanner::new();
    let mut issues = Vec::new();
    s.scan_file("a.rs", "fn main() { println!(\"safe\"); }", &mut issues);
    assert!(issues.is_empty());
}

#[test]
fn non_source_and_unreadable_files_are_skipped() {
    let s = SecurityScanner::new();
    let files = vec![
        file("src/notes.txt", "unsafe { }"),
        SourceFile { path: "src/broken.rs".to_string(), contents: None },
        file("src/.rs", "unsafe { }"),
        file("src/ok.rs", "unsafe { }"),
    ];
    let p = package("pkg", version(1, 0, 0), vec![], SourceTree::Files(files));
    let issues = s.scan_package(&p).unwrap();
    assert_eq!(
        descriptions(&issues),
        vec!["Contains unsafe blocks - review for memory safety in src/ok.rs".to_string()]
    );
}

#[test]
fn unreadable_tree_fails_the_package_scan() {
    let s = SecurityScanner::new();
    let p = package("pkg", version(0, 1, 0), vec![], SourceTree::Unreadable);
    assert_eq!(s.scan_package(&p).unwrap_err(), ScanError::UnreadableSourceTree);
}

#[test]
fn missing_source_directory_keeps_metadata_findings() {
    let s = SecurityScanner::new();
    let p = package("nosrc", version(0, 2, 0), vec![dep("x", "*")], SourceTree::Missing);
    let issues = s.scan_package(&p).unwrap();
    assert_eq!(issues.len(), 2);
    assert_eq!(issues[0].severity, Severity::Low);
    assert_eq!(issues[1].severity, Severity::High);
}

#[test]
fn scanning_twice_gives_the_same_findings() {
    let s = SecurityScanner::new();
    let files = vec![file("src/a.rs", "unsafe {}"), file("src/b.rs", "TcpListener::bind(x)")];
    let p = package("twice", version(0, 9, 0), vec![dep("y", "*")], SourceTree::Files(files));
    let first = s.scan_package(&p).unwrap();
    let second = s.scan_package(&p).unwrap();
    assert_eq!(descriptions(&first), descriptions(&second));
    assert_eq!(first.len(), 4);
}

#[test]
fn added_rule_is_consulted_last() {
    let mut s = SecurityScanner::new();
    s.add_rule(Rule {
        pattern: r"todo!\(".to_string(),
        description: "Unfinished code".to_string(),
        severity: Severity::Info,
    });
    let mut issues = Vec::new();
    s.scan_file("m.rs", "unsafe { todo!() }", &mut issues);
    assert_eq!(issues.len(), 2);
    assert_eq!(issues[1].description, "Unfinished code in m.rs");
    assert_eq!(issues[1].severity, Severity::Info);
}

#[test]
fn invalid_rule_pattern_never_fires() {
    let mut s = SecurityScanner::new();
    s.add_rule(Rule { pattern: "(".to_string(), description: "bad".to_string(), severity: Severity::Low });
    let mut issues = Vec::new();
    s.scan_file("m.rs", "(", &mut issues);
    assert!(issues.is_empty());
}

#[test]
fn version_text_with_pre_release_and_build() {
    let v = Version { major: 0, minor: 10, patch: 203, pre: "alpha.1".to_string(), build: "git5".to_string() };
    assert_eq!(v.to_text(), "0.10.203-alpha.1+git5");
    assert_eq!(version(12, 0, 7).to_text(), "12.0.7");
}

#[test]
fn severity_labels_and_order() {
    assert_eq!(Severity::Critical.label(), "CRITICAL");
    assert_eq!(Severity::High.label(), "HIGH");
    assert_eq!(Severity::Medium.label(), "MEDIUM");
    assert_eq!(Severity::Low.label(), "LOW");
    assert_eq!(Severity::Info.label(), "INFO");
    assert!(Severity::Critical.is_riskier_than(&Severity::High));
    assert!(!Severity::Info.is_riskier_than(&Severity::Low));
    assert!(Severity::Critical < Severity::Info);
}

#[test]
fn text_helpers() {
    assert_eq!(decimal_string(0), "0");
    assert_eq!(decimal_string(1907), "1907");
    assert_eq!(decimal_string(u64::MAX), u64::MAX.to_string());
    assert!(contains_char(">=1, <2.*", '*'));
    assert!(!contains_char("^1.2", '*'));
    assert!(has_source_extension("src/main.rs"));
    assert!(has_source_extension("a.b.rs"));
    assert!(!has_source_extension("src/.rs"));
    assert!(!has_source_extension("src/main.rsx"));
    assert!(!has_source_extension("rs"));
}
