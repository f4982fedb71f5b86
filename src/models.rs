use vstd::prelude::*;
use vstd::string::*;

use crate::text::{decimal, push_decimal};

verus! {

/// A direct dependency of the analysed root package.
#[derive(Debug)]
pub struct DependencyInfo {
    pub name: String,
    pub version: String,
    pub is_direct: bool,
    pub features: Vec<String>,
    pub dependencies: Vec<String>,
}

/// How severe a finding is, from the most to the least risky.
#[derive(Debug, Clone, Copy, PartialEq, Eq, Structural, PartialOrd, Ord, Hash)]
pub enum Severity {
    Critical,
    High,
    Medium,
    Low,
    Info,
}

impl Severity {
    /// Position in the risk order: `Critical` is 0, `Info` is 4.
    pub open spec fn rank(self) -> nat {
        match self {
            Severity::Critical => 0,
            Severity::High => 1,
            Severity::Medium => 2,
            Severity::Low => 3,
            Severity::Info => 4,
        }
    }

    pub open spec fn label_spec(self) -> Seq<char> {
        match self {
            Severity::Critical => "CRITICAL"@,
            Severity::High => "HIGH"@,
            Severity::Medium => "MEDIUM"@,
            Severity::Low => "LOW"@,
            Severity::Info => "INFO"@,
        }
    }

    /// The upper-case tag under which the severity is displayed.
    pub fn label(&self) -> (r: String)
        ensures
            r@ == self.label_spec(),
    {
        match self {
            Severity::Critical => String::from_str("CRITICAL"),
            Severity::High => String::from_str("HIGH"),
            Severity::Medium => String::from_str("MEDIUM"),
            Severity::Low => String::from_str("LOW"),
            Severity::Info => String::from_str("INFO"),
        }
    }

    /// Whether `self` is strictly riskier than `other`.
    pub fn is_riskier_than(&self, other: &Severity) -> (r: bool)
        ensures
            r == (self.rank() < other.rank()),
    {
        self.rank_exec() < other.rank_exec()
    }

    fn rank_exec(&self) -> (r: u8)
        ensures
            r as nat == self.rank(),
    {
        match self {
            Severity::Critical => 0,
            Severity::High => 1,
            Severity::Medium => 2,
            Severity::Low => 3,
            Severity::Info => 4,
        }
    }
}

/// One finding about a package.
#[derive(Debug)]
pub struct SecurityIssue {
    pub severity: Severity,
    pub description: String,
    pub affected_versions: Vec<String>,
    pub fix_version: Option<String>,
}

/// The mathematical value of a finding.
pub struct IssueView {
    pub severity: Severity,
    pub description: Seq<char>,
    pub affected_versions: Seq<Seq<char>>,
    pub fix_version: Option<Seq<char>>,
}

pub open spec fn strings_view(v: Seq<String>) -> Seq<Seq<char>> {
    v.map_values(|s: String| s@)
}

impl View for SecurityIssue {
    type V = IssueView;

    open spec fn view(&self) -> IssueView {
        IssueView {
            severity: self.severity,
            description: self.description@,
            affected_versions: strings_view(self.affected_versions@),
            fix_version: match self.fix_version {
                Some(f) => Some(f@),
                None => None,
            },
        }
    }
}

pub open spec fn issues_view(v: Seq<SecurityIssue>) -> Seq<IssueView> {
    v.map_values(|i: SecurityIssue| i@)
}

/// A finding with no known fix.
pub open spec fn unfixed(
    severity: Severity,
    description: Seq<char>,
    affected_versions: Seq<Seq<char>>,
) -> IssueView {
    IssueView { severity, description, affected_versions, fix_version: None }
}

/// A semantic version.
#[derive(Debug)]
pub struct Version {
    pub major: u64,
    pub minor: u64,
    pub patch: u64,
    /// Pre-release identifiers, without the leading `-`; empty if none.
    pub pre: String,
    /// Build metadata, without the leading `+`; empty if none.
    pub build: String,
}

impl Version {
    /// The textual form `major.minor.patch[-pre][+build]`.
    pub open spec fn text(&self) -> Seq<char> {
        decimal(self.major as nat) + "."@ + decimal(self.minor as nat) + "."@ + decimal(
            self.patch as nat,
        ) + (if self.pre@.len() == 0 {
            Seq::<char>::empty()
        } else {
            "-"@ + self.pre@
        }) + (if self.build@.len() == 0 {
            Seq::<char>::empty()
        } else {
            "+"@ + self.build@
        })
    }

    /// Writes the version in its textual form.
    pub fn to_text(&self) -> (r: String)
        ensures
            r@ == self.text(),
    {
        let mut s = String::new();
        push_decimal(&mut s, self.major);
        s.append(".");
        push_decimal(&mut s, self.minor);
        s.append(".");
        push_decimal(&mut s, self.patch);
        let ghost core = s@;
        if self.pre.as_str().is_empty() {
            assert(s@ =~= core + Seq::<char>::empty());
        } else {
            s.append("-");
            s.append(self.pre.as_str());
        }
        let ghost with_pre = s@;
        if self.build.as_str().is_empty() {
            assert(s@ =~= with_pre + Seq::<char>::empty());
        } else {
            s.append("+");
            s.append(self.build.as_str());
        }
        assert(s@ =~= self.text());
        s
    }
}

/// A dependency as a package declares it.
#[derive(Debug)]
pub struct PackageDependency {
    pub name: String,
    /// The version requirement, as written.
    pub req: String,
    pub features: Vec<String>,
}

/// A build target of a package with the kinds it is tagged with
/// (`lib`, `bin`, `custom-build`, ...).
#[derive(Debug)]
pub struct BuildTarget {
    pub name: String,
    pub kind: Vec<String>,
}

/// A resolved package: its identity, declared dependencies, targets and
/// what was found in its source directory.
#[derive(Debug)]
pub struct Package {
    pub name: String,
    pub version: Version,
    pub dependencies: Vec<PackageDependency>,
    pub targets: Vec<BuildTarget>,
    pub source: SourceTree,
}

/// A file of a package's source tree; `contents` is `None` where it could
/// not be read.
#[derive(Debug)]
pub struct SourceFile {
    pub path: String,
    pub contents: Option<String>,
}

/// What was found at a package's source directory.
#[derive(Debug)]
pub enum SourceTree {
    /// There is no source directory.
    Missing,
    /// The directory could not be walked.
    Unreadable,
    /// The files found under it, at any depth.
    Files(Vec<SourceFile>),
}

} // verus!
