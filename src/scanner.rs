use vstd::prelude::*;
use vstd::string::*;

use crate::models::{
    issues_view, strings_view, unfixed, IssueView, Package, PackageDependency, SecurityIssue,
    Severity, SourceFile, SourceTree,
};
use crate::text::{
    decimal, decimal_string, contains_char, has_char, has_source_extension,
    has_source_extension_spec,
};

verus! {

/// Whether `regex::Regex::new` accepts `pattern`.
pub uninterp spec fn regex_compiles(pattern: Seq<char>) -> bool;

/// Whether the compiled `pattern` matches anywhere in `text`.
pub uninterp spec fn regex_finds(pattern: Seq<char>, text: Seq<char>) -> bool;

/// Relies on `regex::Regex::new`, which fails exactly on patterns it cannot
/// compile, and on `regex::Regex::is_match`, which tells whether the compiled
/// pattern matches anywhere in the haystack. `None` where the pattern does not
/// compile.
#[verifier::external_body]
fn regex_search(pattern: &str, text: &str) -> (r: Option<bool>)
    ensures
        r is Some <==> regex_compiles(pattern@),
        r matches Some(b) ==> b == regex_finds(pattern@, text@),
{
    match regex::Regex::new(pattern) {
        Ok(re) => Some(re.is_match(text)),
        Err(_) => None,
    }
}

/// A detection rule: a regular expression over a whole file's text, the
/// description of what a match means, and its severity.
#[derive(Debug)]
pub struct Rule {
    pub pattern: String,
    pub description: String,
    pub severity: Severity,
}

/// A rule fires on a text when its pattern compiles and matches in it.
pub open spec fn rule_hits(rule: Rule, text: Seq<char>) -> bool {
    regex_compiles(rule.pattern@) && regex_finds(rule.pattern@, text)
}

/// The finding of a rule that fired in the file at `path`.
pub open spec fn rule_finding(rule: Rule, path: Seq<char>) -> IssueView {
    unfixed(rule.severity, rule.description@ + " in "@ + path, Seq::empty())
}

/// The findings of `rules` on one file, in rule order.
pub open spec fn file_findings(rules: Seq<Rule>, path: Seq<char>, text: Seq<char>) -> Seq<IssueView>
    decreases rules.len(),
{
    if rules.len() == 0 {
        Seq::empty()
    } else {
        let prev = file_findings(rules.drop_last(), path, text);
        if rule_hits(rules.last(), text) {
            prev.push(rule_finding(rules.last(), path))
        } else {
            prev
        }
    }
}

/// The findings of one file of a source tree: none for a file that is not
/// Rust source or could not be read.
pub open spec fn source_file_findings(rules: Seq<Rule>, file: SourceFile) -> Seq<IssueView> {
    match file.contents {
        Some(text) => if has_source_extension_spec(file.path@) {
            file_findings(rules, file.path@, text@)
        } else {
            Seq::empty()
        },
        None => Seq::empty(),
    }
}

/// The findings of a list of files, file after file.
pub open spec fn source_findings(rules: Seq<Rule>, files: Seq<SourceFile>) -> Seq<IssueView>
    decreases files.len(),
{
    if files.len() == 0 {
        Seq::empty()
    } else {
        source_findings(rules, files.drop_last()) + source_file_findings(rules, files.last())
    }
}

pub open spec fn pre_release_finding(p: Package) -> IssueView {
    unfixed(
        Severity::Low,
        "Package "@ + p.name@ + " is pre-1.0 ("@ + p.version.text() + ") - API may be unstable"@,
        seq![p.version.text()],
    )
}

/// The pre-release finding, for a package of major version 0.
pub open spec fn version_findings(p: Package) -> Seq<IssueView> {
    if p.version.major == 0 {
        seq![pre_release_finding(p)]
    } else {
        Seq::empty()
    }
}

/// Above this many direct dependencies a package is flagged.
pub const MAX_DIRECT_DEPENDENCIES: usize = 20;

pub open spec fn dependency_count_finding(p: Package) -> IssueView {
    unfixed(
        Severity::Low,
        "Large number of dependencies ("@ + decimal(p.dependencies@.len()) + ") increases attack surface"@,
        seq![p.version.text()],
    )
}

pub open spec fn count_findings(p: Package) -> Seq<IssueView> {
    if p.dependencies@.len() > MAX_DIRECT_DEPENDENCIES {
        seq![dependency_count_finding(p)]
    } else {
        Seq::empty()
    }
}

/// Whether a version requirement holds the wildcard `*`.
pub open spec fn is_wildcard(dep: PackageDependency) -> bool {
    has_char(dep.req@, '*')
}

/// The wildcard finding for `dep`, attributed to the version of the package
/// that declares it.
pub open spec fn wildcard_finding(dep: PackageDependency, version: Seq<char>) -> IssueView {
    unfixed(
        Severity::High,
        "Wildcard dependency version for "@ + dep.name@ + " - security risk"@,
        seq![version],
    )
}

/// One wildcard finding per wildcard requirement, in declaration order.
pub open spec fn wildcard_findings(deps: Seq<PackageDependency>, version: Seq<char>) -> Seq<IssueView>
    decreases deps.len(),
{
    if deps.len() == 0 {
        Seq::empty()
    } else {
        let prev = wildcard_findings(deps.drop_last(), version);
        if is_wildcard(deps.last()) {
            prev.push(wildcard_finding(deps.last(), version))
        } else {
            prev
        }
    }
}

pub open spec fn dependency_findings(p: Package) -> Seq<IssueView> {
    count_findings(p) + wildcard_findings(p.dependencies@, p.version.text())
}

/// Whether some target of `p` is tagged `custom-build`.
pub open spec fn has_build_script(p: Package) -> bool {
    exists|i: int, j: int|
        0 <= i < p.targets@.len() && 0 <= j < p.targets@[i].kind@.len()
            && #[trigger] p.targets@[i].kind@[j]@ == "custom-build"@
}

pub open spec fn build_script_finding(p: Package) -> IssueView {
    unfixed(
        Severity::Medium,
        "Package "@ + p.name@ + " contains build scripts - review for security"@,
        seq![p.version.text()],
    )
}

pub open spec fn build_findings(p: Package) -> Seq<IssueView> {
    if has_build_script(p) {
        seq![build_script_finding(p)]
    } else {
        Seq::empty()
    }
}

/// Everything the package's metadata alone gives, in check order.
pub open spec fn metadata_findings(p: Package) -> Seq<IssueView> {
    version_findings(p) + dependency_findings(p) + build_findings(p)
}

/// The outcome of scanning a package with its source tree: `None` where the
/// tree could not be walked.
pub open spec fn package_findings(rules: Seq<Rule>, p: Package) -> Option<Seq<IssueView>> {
    match p.source {
        SourceTree::Missing => Some(metadata_findings(p)),
        SourceTree::Unreadable => None,
        SourceTree::Files(files) => Some(metadata_findings(p) + source_findings(rules, files@)),
    }
}

/// `r` is what scanning `p` with `rules` gives.
pub open spec fn is_scan_outcome(rules: Seq<Rule>, p: Package, r: Result<Vec<SecurityIssue>, ScanError>) -> bool {
    match package_findings(rules, p) {
        Some(f) => r matches Ok(v) && issues_view(v@) == f,
        None => r == Err::<Vec<SecurityIssue>, ScanError>(ScanError::UnreadableSourceTree),
    }
}

/// How many times `x` occurs in `s`.
pub open spec fn count_of(s: Seq<IssueView>, x: IssueView) -> nat
    decreases s.len(),
{
    if s.len() == 0 {
        0
    } else {
        count_of(s.drop_last(), x) + if s.last() == x { 1nat } else { 0nat }
    }
}

/// How many of `deps` have a wildcard requirement.
pub open spec fn wildcard_count(deps: Seq<PackageDependency>) -> nat
    decreases deps.len(),
{
    if deps.len() == 0 {
        0
    } else {
        wildcard_count(deps.drop_last()) + if is_wildcard(deps.last()) { 1nat } else { 0nat }
    }
}

/// Why a package scan failed.
#[derive(Debug, Clone, Copy, PartialEq, Eq, Structural)]
pub enum ScanError {
    /// The package's source directory could not be walked.
    UnreadableSourceTree,
}

/// Findings of a whole run, by package.
#[derive(Debug)]
pub struct SecurityScan {
    pub issues: Vec<SecurityIssue>,
    pub dependencies: Vec<(String, Vec<SecurityIssue>)>,
}

/// The default catalog: memory safety, platform, foreign functions, code
/// evaluation, process execution, file system and network rules, in that order.
pub open spec fn is_default_catalog(rules: Seq<Rule>) -> bool {
    &&& rules.len() == 8
    &&& rule_is(rules[0], r"unsafe\s*\{"@, "Contains unsafe blocks - review for memory safety"@, Severity::High)
    &&& rule_is(rules[1], r"std::mem::transmute"@, "Uses memory transmutation - potential type safety issues"@, Severity::High)
    &&& rule_is(rules[2], r"#!\[no_std\]"@, "No standard library usage - verify safety implementations"@, Severity::Medium)
    &&& rule_is(rules[3], r"extern\s*C"@, "FFI usage detected - validate memory safety"@, Severity::Medium)
    &&& rule_is(rules[4], r"eval\s*\("@, "Code evaluation detected - potential security risk"@, Severity::Critical)
    &&& rule_is(rules[5], r"std::process::Command"@, "Process execution capabilities - review for command injection"@, Severity::High)
    &&& rule_is(rules[6], r"std::fs::(write|create|remove)"@, "File system modification - review for proper permissions"@, Severity::Medium)
    &&& rule_is(rules[7], r"TcpListener::bind"@, "Network listener - verify proper security controls"@, Severity::Medium)
}

/// The rule catalog and the checks run on each package.
#[derive(Debug)]
pub struct SecurityScanner {
    pub patterns: Vec<Rule>,
}

fn rule(pattern: &str, description: &str, severity: Severity) -> (r: Rule)
    ensures
        r.pattern@ == pattern@,
        r.description@ == description@,
        r.severity == severity,
{
    Rule {
        pattern: String::from_str(pattern),
        description: String::from_str(description),
        severity,
    }
}

pub open spec fn rule_is(r: Rule, pattern: Seq<char>, description: Seq<char>, severity: Severity) -> bool {
    r.pattern@ == pattern && r.description@ == description && r.severity == severity
}

impl SecurityScanner {
    /// The catalog of default rules.
    pub fn new() -> (r: SecurityScanner)
        ensures
            is_default_catalog(r.patterns@),
    {
        let patterns = vec![
            // Memory safety
            rule(r"unsafe\s*\{", "Contains unsafe blocks - review for memory safety", Severity::High),
            rule(r"std::mem::transmute", "Uses memory transmutation - potential type safety issues", Severity::High),
            // Platform and foreign functions
            rule(r"#!\[no_std\]", "No standard library usage - verify safety implementations", Severity::Medium),
            rule(r"extern\s*C", "FFI usage detected - validate memory safety", Severity::Medium),
            // Code evaluation and process execution
            rule(r"eval\s*\(", "Code evaluation detected - potential security risk", Severity::Critical),
            rule(r"std::process::Command", "Process execution capabilities - review for command injection", Severity::High),
            // File system
            rule(r"std::fs::(write|create|remove)", "File system modification - review for proper permissions", Severity::Medium),
            // Network
            rule(r"TcpListener::bind", "Network listener - verify proper security controls", Severity::Medium),
        ];
        SecurityScanner { patterns }
    }

    /// Appends a rule to the catalog; it is consulted after the others.
    pub fn add_rule(&mut self, rule: Rule)
        ensures
            final(self).patterns@ == old(self).patterns@.push(rule),
    {
        self.patterns.push(rule);
    }

    /// Appends the findings of every rule that fires on `text`, the contents
    /// of the file at `path`, in rule order.
    pub fn scan_file(&self, path: &str, text: &str, issues: &mut Vec<SecurityIssue>)
        ensures
            issues_view(final(issues)@) == issues_view(old(issues)@) + file_findings(
                self.patterns@,
                path@,
                text@,
            ),
    {
        let n = self.patterns.len();
        let mut i: usize = 0;
        while i < n
            invariant
                n == self.patterns@.len(),
                i <= n,
                issues_view(issues@) == issues_view(old(issues)@) + file_findings(
                    self.patterns@.subrange(0, i as int),
                    path@,
                    text@,
                ),
            decreases n - i,
        {
            let r = &self.patterns[i];
            let hit = match regex_search(r.pattern.as_str(), text) {
                Some(b) => b,
                None => false,
            };
            let ghost before = issues@;
            if hit {
                let mut description = r.description.clone();
                description.append(" in ");
                description.append(path);
                let issue = SecurityIssue {
                    severity: r.severity,
                    description,
                    affected_versions: Vec::new(),
                    fix_version: None,
                };
                assert(strings_view(issue.affected_versions@) =~= Seq::<Seq<char>>::empty());
                assert(issue.description@ =~= r.description@ + " in "@ + path@);
                assert(issue@ == rule_finding(*r, path@));
                issues.push(issue);
                assert(issues_view(issues@) =~= issues_view(before).push(rule_finding(*r, path@)));
            }
            assert(self.patterns@.subrange(0, i + 1).drop_last() =~= self.patterns@.subrange(0, i as int));
            i = i + 1;
        }
        assert(self.patterns@.subrange(0, n as int) =~= self.patterns@);
    }

    /// Appends the findings of the Rust source files among `files` that could
    /// be read, file after file.
    pub fn scan_sources(&self, files: &Vec<SourceFile>, issues: &mut Vec<SecurityIssue>)
        ensures
            issues_view(final(issues)@) == issues_view(old(issues)@) + source_findings(
                self.patterns@,
                files@,
            ),
    {
        let n = files.len();
        let mut i: usize = 0;
        while i < n
            invariant
                n == files@.len(),
                i <= n,
                issues_view(issues@) == issues_view(old(issues)@) + source_findings(
                    self.patterns@,
                    files@.subrange(0, i as int),
                ),
            decreases n - i,
        {
            let f = &files[i];
            let ghost before = issues@;
            match &f.contents {
                Some(text) => {
                    if has_source_extension(f.path.as_str()) {
                        self.scan_file(f.path.as_str(), text.as_str(), issues);
                    } else {
                        assert(issues_view(issues@) =~= issues_view(before) + Seq::<IssueView>::empty());
                    }
                },
                None => {
                    assert(issues_view(issues@) =~= issues_view(before) + Seq::<IssueView>::empty());
                },
            }
            assert(files@.subrange(0, i + 1).drop_last() =~= files@.subrange(0, i as int));
            assert(issues_view(issues@) =~= issues_view(old(issues)@) + source_findings(
                self.patterns@,
                files@.subrange(0, i + 1),
            ));
            i = i + 1;
        }
        assert(files@.subrange(0, n as int) =~= files@);
    }

    /// Appends the pre-release finding where the major version is 0.
    pub fn check_version(&self, package: &Package, issues: &mut Vec<SecurityIssue>)
        ensures
            issues_view(final(issues)@) == issues_view(old(issues)@) + version_findings(*package),
    {
        if package.version.major == 0 {
            let version = package.version.to_text();
            let mut description = String::from_str("Package ");
            description.append(package.name.as_str());
            description.append(" is pre-1.0 (");
            description.append(version.as_str());
            description.append(") - API may be unstable");
            let affected_versions = vec![version];
            issues.push(SecurityIssue {
                severity: Severity::Low,
                description,
                affected_versions,
                fix_version: None,
            });
            assert(strings_view(affected_versions@) =~= seq![package.version.text()]);
        }
        assert(issues_view(final(issues)@) =~= issues_view(old(issues)@) + version_findings(*package));
    }
    /// Appends the dependency-count finding where the package declares more
    /// than twenty dependencies, then one wildcard finding per dependency
    /// whose requirement holds `*`.
    pub fn check_dependencies(&self, package: &Package, issues: &mut Vec<SecurityIssue>)
        ensures
            issues_view(final(issues)@) == issues_view(old(issues)@) + dependency_findings(*package),
    {
        let count = package.dependencies.len();
        if count > MAX_DIRECT_DEPENDENCIES {
            let mut description = String::from_str("Large number of dependencies (");
            description.append(decimal_string(count as u64).as_str());
            description.append(") increases attack surface");
            let affected_versions = vec![package.version.to_text()];
            issues.push(SecurityIssue {
                severity: Severity::Low,
                description,
                affected_versions,
                fix_version: None,
            });
            assert(strings_view(affected_versions@) =~= seq![package.version.text()]);
        }
        let ghost counted = issues@;
        assert(issues_view(counted) =~= issues_view(old(issues)@) + count_findings(*package));
        let version = package.version.to_text();
        let mut i: usize = 0;
        while i < count
            invariant
                count == package.dependencies@.len(),
                i <= count,
                version@ == package.version.text(),
                issues_view(issues@) == issues_view(counted) + wildcard_findings(
                    package.dependencies@.subrange(0, i as int),
                    version@,
                ),
            decreases count - i,
        {
            let dep = &package.dependencies[i];
            let ghost before = issues@;
            if contains_char(dep.req.as_str(), '*') {
                let mut description = String::from_str("Wildcard dependency version for ");
                description.append(dep.name.as_str());
                description.append(" - security risk");
                let affected_versions = vec![version.clone()];
                let issue = SecurityIssue {
                    severity: Severity::High,
                    description,
                    affected_versions,
                    fix_version: None,
                };
                assert(strings_view(issue.affected_versions@) =~= seq![version@]);
                assert(issue@ == wildcard_finding(*dep, version@));
                issues.push(issue);
                assert(issues_view(issues@) =~= issues_view(before).push(wildcard_finding(*dep, version@)));
            }
            assert(package.dependencies@.subrange(0, i + 1).drop_last()
                =~= package.dependencies@.subrange(0, i as int));
            i = i + 1;
        }
        assert(package.dependencies@.subrange(0, count as int) =~= package.dependencies@);
        assert(issues_view(issues@) =~= issues_view(old(issues)@) + dependency_findings(*package));
    }

    /// Appends the build-script finding where some target is tagged
    /// `custom-build`.
    pub fn check_build_scripts(&self, package: &Package, issues: &mut Vec<SecurityIssue>)
        ensures
            issues_view(final(issues)@) == issues_view(old(issues)@) + build_findings(*package),
    {
        if has_custom_build_target(package) {
            let mut description = String::from_str("Package ");
            description.append(package.name.as_str());
            description.append(" contains build scripts - review for security");
            let affected_versions = vec![package.version.to_text()];
            issues.push(SecurityIssue {
                severity: Severity::Medium,
                description,
                affected_versions,
                fix_version: None,
            });
            assert(strings_view(affected_versions@) =~= seq![package.version.text()]);
        }
        assert(issues_view(final(issues)@) =~= issues_view(old(issues)@) + build_findings(*package));
    }

    /// The findings of the metadata checks, then those of the source tree.
    /// Fails where the source tree could not be walked; a missing tree gives
    /// the metadata findings alone.
    pub fn scan_package(&self, package: &Package) -> (r: Result<Vec<SecurityIssue>, ScanError>)
        ensures
            is_scan_outcome(self.patterns@, *package, r),
    {
        if let SourceTree::Unreadable = &package.source {
            return Err(ScanError::UnreadableSourceTree);
        }
        let mut issues: Vec<SecurityIssue> = Vec::new();
        assert(issues_view(issues@) =~= Seq::<IssueView>::empty());
        self.check_version(package, &mut issues);
        self.check_dependencies(package, &mut issues);
        self.check_build_scripts(package, &mut issues);
        assert(issues_view(issues@) =~= metadata_findings(*package));
        if let SourceTree::Files(files) = &package.source {
            self.scan_sources(files, &mut issues);
        }
        Ok(issues)
    }
}

/// Whether some target of `package` is tagged `custom-build`.
pub fn has_custom_build_target(package: &Package) -> (r: bool)
    ensures
        r == has_build_script(*package),
{
    let custom = String::from_str("custom-build");
    let n = package.targets.len();
    let mut i: usize = 0;
    while i < n
        invariant
            n == package.targets@.len(),
            i <= n,
            custom@ == "custom-build"@,
            forall|a: int, b: int|
                0 <= a < i && 0 <= b < package.targets@[a].kind@.len()
                    ==> #[trigger] package.targets@[a].kind@[b]@ != "custom-build"@,
        decreases n - i,
    {
        let kinds = &package.targets[i].kind;
        let m = kinds.len();
        let mut j: usize = 0;
        while j < m
            invariant
                n == package.targets@.len(),
                i < n,
                m == kinds@.len(),
                kinds == package.targets@[i as int].kind,
                j <= m,
                custom@ == "custom-build"@,
                forall|b: int| 0 <= b < j ==> #[trigger] kinds@[b]@ != "custom-build"@,
            decreases m - j,
        {
            if kinds[j] == custom {
                assert(package.targets@[i as int].kind@[j as int]@ == "custom-build"@);
                return true;
            }
            j = j + 1;
        }
        i = i + 1;
    }
    false
}

proof fn lemma_count_of_add(a: Seq<IssueView>, b: Seq<IssueView>, x: IssueView)
    ensures
        count_of(a + b, x) == count_of(a, x) + count_of(b, x),
    decreases b.len(),
{
    if b.len() == 0 {
        assert(a + b =~= a);
    } else {
        lemma_count_of_add(a, b.drop_last(), x);
        assert((a + b).drop_last() =~= a + b.drop_last());
    }
}

proof fn lemma_count_of_absent(s: Seq<IssueView>, x: IssueView)
    requires
        forall|i: int| 0 <= i < s.len() ==> s[i] != x,
    ensures
        count_of(s, x) == 0,
    decreases s.len(),
{
    if s.len() > 0 {
        lemma_count_of_absent(s.drop_last(), x);
    }
}

proof fn lemma_file_findings_unversioned(rules: Seq<Rule>, path: Seq<char>, text: Seq<char>)
    ensures
        forall|i: int| 0 <= i < file_findings(rules, path, text).len()
            ==> (#[trigger] file_findings(rules, path, text)[i]).affected_versions.len() == 0,
    decreases rules.len(),
{
    if rules.len() > 0 {
        lemma_file_findings_unversioned(rules.drop_last(), path, text);
    }
}

/// Source findings name no affected version.
proof fn lemma_source_findings_unversioned(rules: Seq<Rule>, files: Seq<SourceFile>)
    ensures
        forall|i: int| 0 <= i < source_findings(rules, files).len()
            ==> (#[trigger] source_findings(rules, files)[i]).affected_versions.len() == 0,
    decreases files.len(),
{
    if files.len() > 0 {
        lemma_source_findings_unversioned(rules, files.drop_last());
        let f = files.last();
        if let Some(t) = f.contents {
            lemma_file_findings_unversioned(rules, f.path@, t@);
        }
        let prev = source_findings(rules, files.drop_last());
        let last = source_file_findings(rules, f);
        assert forall|i: int| 0 <= i < source_findings(rules, files).len()
            implies (#[trigger] source_findings(rules, files)[i]).affected_versions.len() == 0 by {
            if i >= prev.len() {
                assert(source_findings(rules, files)[i] == last[i - prev.len()]);
            }
        }
    }
}

proof fn lemma_wildcard_findings_shape(deps: Seq<PackageDependency>, version: Seq<char>)
    ensures
        wildcard_findings(deps, version).len() == wildcard_count(deps),
        forall|i: int| 0 <= i < wildcard_findings(deps, version).len() ==> {
            &&& (#[trigger] wildcard_findings(deps, version)[i]).severity == Severity::High
            &&& wildcard_findings(deps, version)[i].affected_versions == seq![version]
        },
    decreases deps.len(),
{
    if deps.len() > 0 {
        lemma_wildcard_findings_shape(deps.drop_last(), version);
    }
}

/// The findings of a package, with its metadata findings split into their
/// checks and the source findings after them.
proof fn lemma_findings_parts(rules: Seq<Rule>, p: Package, x: IssueView)
    requires
        package_findings(rules, p) is Some,
        x.affected_versions.len() > 0,
        x.severity != Severity::High,
    ensures
        count_of(package_findings(rules, p)->0, x) == count_of(version_findings(p), x) + count_of(
            count_findings(p),
            x,
        ) + count_of(build_findings(p), x),
{
    let ws = wildcard_findings(p.dependencies@, p.version.text());
    lemma_wildcard_findings_shape(p.dependencies@, p.version.text());
    lemma_count_of_absent(ws, x);
    lemma_count_of_add(version_findings(p), count_findings(p) + ws, x);
    lemma_count_of_add(count_findings(p), ws, x);
    lemma_count_of_add(version_findings(p) + dependency_findings(p), build_findings(p), x);
    let src = match p.source {
        SourceTree::Files(files) => source_findings(rules, files@),
        _ => Seq::empty(),
    };
    if let SourceTree::Files(files) = p.source {
        lemma_source_findings_unversioned(rules, files@);
        lemma_count_of_absent(src, x);
        lemma_count_of_add(metadata_findings(p), src, x);
    }
}

proof fn lemma_prefix_differs(a: Seq<char>, b: Seq<char>, c: Seq<char>, d: Seq<char>)
    requires
        a.len() > 0,
        c.len() > 0,
        a[0] != c[0],
    ensures
        a + b != c + d,
{
    assert((a + b)[0] == a[0]);
    assert((c + d)[0] == c[0]);
}

/// A package of major version 0 has the pre-release finding exactly once;
/// any other package has none.
pub proof fn lemma_pre_release_once(rules: Seq<Rule>, p: Package)
    requires
        package_findings(rules, p) is Some,
    ensures
        count_of(package_findings(rules, p)->0, pre_release_finding(p)) == if p.version.major == 0 {
            1nat
        } else {
            0nat
        },
{
    let x = pre_release_finding(p);
    lemma_findings_parts(rules, p, x);
    reveal_strlit("Package ");
    reveal_strlit("Large number of dependencies (");
    lemma_prefix_differs(
        "Large number of dependencies ("@,
        decimal(p.dependencies@.len()) + ") increases attack surface"@,
        "Package "@,
        p.name@ + " is pre-1.0 ("@ + p.version.text() + ") - API may be unstable"@,
    );
    assert(dependency_count_finding(p).description != x.description) by {
        assert(dependency_count_finding(p).description =~= "Large number of dependencies ("@ + (
        decimal(p.dependencies@.len()) + ") increases attack surface"@));
        assert(x.description =~= "Package "@ + (p.name@ + " is pre-1.0 ("@ + p.version.text()
            + ") - API may be unstable"@));
    }
    lemma_count_of_absent(count_findings(p), x);
    lemma_count_of_absent(build_findings(p), x);
    if p.version.major == 0 {
        assert(count_of(version_findings(p), x) == 1) by {
            assert(version_findings(p).drop_last() =~= Seq::<IssueView>::empty());
            assert(count_of(Seq::<IssueView>::empty(), x) == 0);
            assert(version_findings(p).last() == x);
        }
    }
}

/// A package with more than twenty direct dependencies has the
/// dependency-count finding exactly once; any other package has none.
pub proof fn lemma_dependency_count_once(rules: Seq<Rule>, p: Package)
    requires
        package_findings(rules, p) is Some,
    ensures
        count_of(package_findings(rules, p)->0, dependency_count_finding(p)) == if p.dependencies@.len()
            > 20 {
            1nat
        } else {
            0nat
        },
{
    let x = dependency_count_finding(p);
    lemma_findings_parts(rules, p, x);
    reveal_strlit("Package ");
    reveal_strlit("Large number of dependencies (");
    lemma_prefix_differs(
        "Package "@,
        p.name@ + " is pre-1.0 ("@ + p.version.text() + ") - API may be unstable"@,
        "Large number of dependencies ("@,
        decimal(p.dependencies@.len()) + ") increases attack surface"@,
    );
    assert(pre_release_finding(p).description != x.description) by {
        assert(x.description =~= "Large number of dependencies ("@ + (decimal(p.dependencies@.len())
            + ") increases attack surface"@));
        assert(pre_release_finding(p).description =~= "Package "@ + (p.name@ + " is pre-1.0 ("@
            + p.version.text() + ") - API may be unstable"@));
    }
    lemma_count_of_absent(version_findings(p), x);
    lemma_count_of_absent(build_findings(p), x);
    if p.dependencies@.len() > 20 {
        assert(count_of(count_findings(p), x) == 1) by {
            assert(count_findings(p).drop_last() =~= Seq::<IssueView>::empty());
            assert(count_of(Seq::<IssueView>::empty(), x) == 0);
            assert(count_findings(p).last() == x);
        }
    }
}

/// A package with a target tagged `custom-build` has the build-script
/// finding exactly once; any other package has none.
pub proof fn lemma_build_script_once(rules: Seq<Rule>, p: Package)
    requires
        package_findings(rules, p) is Some,
    ensures
        count_of(package_findings(rules, p)->0, build_script_finding(p)) == if has_build_script(p) {
            1nat
        } else {
            0nat
        },
{
    let x = build_script_finding(p);
    lemma_findings_parts(rules, p, x);
    lemma_count_of_absent(version_findings(p), x);
    lemma_count_of_absent(count_findings(p), x);
    if has_build_script(p) {
        assert(count_of(build_findings(p), x) == 1) by {
            assert(build_findings(p).drop_last() =~= Seq::<IssueView>::empty());
            assert(count_of(Seq::<IssueView>::empty(), x) == 0);
            assert(build_findings(p).last() == x);
        }
    }
}

/// Each dependency with a wildcard requirement gives one High finding, all
/// of them naming the scanned package's own version, and all of them among
/// the package's findings.
pub proof fn lemma_wildcard_per_dependency(rules: Seq<Rule>, p: Package)
    requires
        package_findings(rules, p) is Some,
    ensures
        ({
            let ws = wildcard_findings(p.dependencies@, p.version.text());
            let f = package_findings(rules, p)->0;
            &&& ws.len() == wildcard_count(p.dependencies@)
            &&& forall|i: int| 0 <= i < ws.len() ==> {
                &&& (#[trigger] ws[i]).severity == Severity::High
                &&& ws[i].affected_versions == seq![p.version.text()]
                &&& f.contains(ws[i])
            }
        }),
{
    let ws = wildcard_findings(p.dependencies@, p.version.text());
    let f = package_findings(rules, p)->0;
    lemma_wildcard_findings_shape(p.dependencies@, p.version.text());
    let off = version_findings(p).len() + count_findings(p).len();
    assert forall|i: int| 0 <= i < ws.len() implies f.contains(#[trigger] ws[i]) by {
        assert(f[off + i] == ws[i]);
    }
}

/// Scanning the same package twice gives the same findings, in the same order.
pub proof fn lemma_scan_repeatable(
    rules: Seq<Rule>,
    p: Package,
    first: Result<Vec<SecurityIssue>, ScanError>,
    second: Result<Vec<SecurityIssue>, ScanError>,
)
    requires
        is_scan_outcome(rules, p, first),
        is_scan_outcome(rules, p, second),
    ensures
        first is Ok <==> second is Ok,
        first matches Ok(a) ==> second matches Ok(b) && issues_view(a@) == issues_view(b@),
{
}

/// A package with no source directory has its metadata findings and no others.
pub proof fn lemma_missing_source(rules: Seq<Rule>, p: Package)
    requires
        p.source is Missing,
    ensures
        package_findings(rules, p) == Some(metadata_findings(p)),
{
}

} // verus!
