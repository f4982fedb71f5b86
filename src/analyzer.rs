use vstd::prelude::*;
use vstd::string::*;

use crate::models::{
    issues_view, strings_view, DependencyInfo, IssueView, Package, PackageDependency,
    SecurityIssue,
};
use crate::scanner::{is_default_catalog, package_findings, Rule, SecurityScanner};

verus! {

/// The report of an analysis.
#[derive(Debug)]
pub struct DependencyAnalysis {
    /// Resolved packages other than the root.
    pub total_dependencies: usize,
    pub direct_dependencies: Vec<DependencyInfo>,
    /// For each resolved package, in resolution order, its name and the names
    /// of its direct dependencies.
    pub dependency_tree: Vec<(String, Vec<String>)>,
    /// For each resolved package with at least one finding, in resolution
    /// order, its name and its findings.
    pub security_issues: Vec<(String, Vec<SecurityIssue>)>,
}

/// Why an analysis failed.
#[derive(Debug, Clone, Copy, PartialEq, Eq, Structural)]
pub enum AnalysisError {
    /// No package of the resolved set is designated as the root.
    RootNotFound,
}

/// The names of a list of declared dependencies.
pub open spec fn dependency_names(deps: Seq<PackageDependency>) -> Seq<Seq<char>> {
    deps.map_values(|d: PackageDependency| d.name@)
}

/// `tree` holds one entry per package, in order: its name and the names of
/// its direct dependencies.
pub open spec fn is_adjacency_of(tree: Seq<(String, Vec<String>)>, packages: Seq<Package>) -> bool {
    &&& tree.len() == packages.len()
    &&& forall|i: int|
        0 <= i < packages.len() ==> {
            &&& #[trigger] tree[i].0@ == packages[i].name@
            &&& strings_view(tree[i].1@) == dependency_names(packages[i].dependencies@)
        }
}

/// The entry that a declared dependency of the root gives.
pub open spec fn is_direct_info(info: DependencyInfo, dep: PackageDependency) -> bool {
    &&& info.name@ == dep.name@
    &&& info.version@ == dep.req@
    &&& info.is_direct
    &&& strings_view(info.features@) == strings_view(dep.features@)
    &&& info.dependencies@.len() == 0
}

pub open spec fn entries_view(s: Seq<(String, Vec<SecurityIssue>)>) -> Seq<(Seq<char>, Seq<IssueView>)> {
    s.map_values(|e: (String, Vec<SecurityIssue>)| (e.0@, issues_view(e.1@)))
}

/// The findings per package: a package whose scan failed or found nothing
/// has no entry.
pub open spec fn issue_entries(rules: Seq<Rule>, packages: Seq<Package>) -> Seq<(Seq<char>, Seq<IssueView>)>
    decreases packages.len(),
{
    if packages.len() == 0 {
        Seq::empty()
    } else {
        let prev = issue_entries(rules, packages.drop_last());
        match package_findings(rules, packages.last()) {
            Some(f) => if f.len() > 0 {
                prev.push((packages.last().name@, f))
            } else {
                prev
            },
            None => prev,
        }
    }
}

/// Runs the analysis of one manifest's resolved package set.
#[derive(Debug)]
pub struct Analyzer {
    pub manifest_path: String,
    pub security_scanner: SecurityScanner,
}

fn clone_string(s: &String) -> (r: String)
    ensures
        r@ == s@,
{
    String::from_str(s.as_str())
}

fn clone_strings(v: &Vec<String>) -> (r: Vec<String>)
    ensures
        strings_view(r@) == strings_view(v@),
{
    let mut r: Vec<String> = Vec::new();
    let n = v.len();
    let mut i: usize = 0;
    while i < n
        invariant
            n == v@.len(),
            i <= n,
            strings_view(r@) == strings_view(v@.subrange(0, i as int)),
        decreases n - i,
    {
        let ghost r0 = r@;
        r.push(clone_string(&v[i]));
        assert(strings_view(r@) =~= strings_view(r0).push(v@[i as int]@));
        assert(strings_view(v@.subrange(0, i + 1)) =~= strings_view(v@.subrange(0, i as int)).push(
            v@[i as int]@,
        ));
        i = i + 1;
    }
    assert(v@.subrange(0, n as int) =~= v@);
    r
}

impl Analyzer {
    /// An analyzer of the manifest at `manifest_path`, with the default rules.
    pub fn new(manifest_path: String) -> (r: Analyzer)
        ensures
            r.manifest_path@ == manifest_path@,
            is_default_catalog(r.security_scanner.patterns@),
    {
        Analyzer { manifest_path, security_scanner: SecurityScanner::new() }
    }
    /// Appends one entry per package, in order: its name and the names of
    /// its direct dependencies in declaration order.
    pub fn build_dependency_tree(&self, packages: &Vec<Package>, tree: &mut Vec<(String, Vec<String>)>)
        ensures
            final(tree)@.subrange(0, old(tree)@.len() as int) == old(tree)@,
            is_adjacency_of(final(tree)@.subrange(old(tree)@.len() as int, final(tree)@.len() as int), packages@),
    {
        let ghost start = tree@.len();
        let n = packages.len();
        let mut i: usize = 0;
        while i < n
            invariant
                n == packages@.len(),
                i <= n,
                tree@.len() == start + i,
                start == old(tree)@.len(),
                tree@.subrange(0, start as int) == old(tree)@,
                is_adjacency_of(tree@.subrange(start as int, tree@.len() as int), packages@.subrange(0, i as int)),
            decreases n - i,
        {
            let package = &packages[i];
            let m = package.dependencies.len();
            let mut names: Vec<String> = Vec::new();
            let mut j: usize = 0;
            while j < m
                invariant
                    m == package.dependencies@.len(),
                    j <= m,
                    strings_view(names@) == dependency_names(package.dependencies@.subrange(0, j as int)),
                decreases m - j,
            {
                let ghost n0 = names@;
                names.push(clone_string(&package.dependencies[j].name));
                assert(strings_view(names@) =~= strings_view(n0).push(package.dependencies@[j as int].name@));
                assert(dependency_names(package.dependencies@.subrange(0, j + 1)) =~= dependency_names(
                    package.dependencies@.subrange(0, j as int),
                ).push(package.dependencies@[j as int].name@));
                j = j + 1;
            }
            assert(package.dependencies@.subrange(0, m as int) =~= package.dependencies@);
            let ghost t0 = tree@;
            tree.push((clone_string(&package.name), names));
            assert(tree@.subrange(0, start as int) =~= t0.subrange(0, start as int));
            let ghost part = tree@.subrange(start as int, tree@.len() as int);
            let ghost done = packages@.subrange(0, i + 1);
            assert(part.len() == done.len());
            assert forall|k: int| 0 <= k < done.len() implies {
                &&& #[trigger] part[k].0@ == done[k].name@
                &&& strings_view(part[k].1@) == dependency_names(done[k].dependencies@)
            } by {
                if k < i {
                    assert(part[k] == t0.subrange(start as int, t0.len() as int)[k]);
                    assert(done[k] == packages@.subrange(0, i as int)[k]);
                }
            }
            i = i + 1;
        }
        assert(packages@.subrange(0, n as int) =~= packages@);
    }

    /// The report on `packages`, the resolved set of the manifest, whose
    /// `root`-th package is the root. Fails where no root is designated.
    pub fn analyze(&self, packages: &Vec<Package>, root: Option<usize>) -> (r: Result<DependencyAnalysis, AnalysisError>)
        ensures
            match root {
                Some(k) if k < packages@.len() => r matches Ok(a) && {
                    let deps = packages@[k as int].dependencies@;
                    &&& a.total_dependencies == packages@.len() - 1
                    &&& a.direct_dependencies@.len() == deps.len()
                    &&& forall|i: int| 0 <= i < deps.len()
                        ==> is_direct_info(#[trigger] a.direct_dependencies@[i], deps[i])
                    &&& is_adjacency_of(a.dependency_tree@, packages@)
                    &&& entries_view(a.security_issues@) == issue_entries(self.security_scanner.patterns@, packages@)
                },
                _ => r == Err::<DependencyAnalysis, AnalysisError>(AnalysisError::RootNotFound),
            },
    {
        let k = match root {
            Some(k) => k,
            None => return Err(AnalysisError::RootNotFound),
        };
        if k >= packages.len() {
            return Err(AnalysisError::RootNotFound);
        }
        let root_package = &packages[k];
        let deps = &root_package.dependencies;
        let mut direct_dependencies: Vec<DependencyInfo> = Vec::new();
        let m = deps.len();
        let mut j: usize = 0;
        while j < m
            invariant
                m == deps@.len(),
                j <= m,
                direct_dependencies@.len() == j,
                forall|i: int| 0 <= i < j ==> is_direct_info(#[trigger] direct_dependencies@[i], deps@[i]),
            decreases m - j,
        {
            let dep = &deps[j];
            let info = DependencyInfo {
                name: clone_string(&dep.name),
                version: clone_string(&dep.req),
                is_direct: true,
                features: clone_strings(&dep.features),
                dependencies: Vec::new(),
            };
            direct_dependencies.push(info);
            j = j + 1;
        }

        let mut dependency_tree: Vec<(String, Vec<String>)> = Vec::new();
        self.build_dependency_tree(packages, &mut dependency_tree);
        assert(dependency_tree@.subrange(0, dependency_tree@.len() as int) =~= dependency_tree@);

        let mut security_issues: Vec<(String, Vec<SecurityIssue>)> = Vec::new();
        let n = packages.len();
        let mut i: usize = 0;
        while i < n
            invariant
                n == packages@.len(),
                i <= n,
                entries_view(security_issues@) == issue_entries(
                    self.security_scanner.patterns@,
                    packages@.subrange(0, i as int),
                ),
            decreases n - i,
        {
            let package = &packages[i];
            let ghost before = security_issues@;
            let ghost done = packages@.subrange(0, i + 1);
            assert(done.drop_last() =~= packages@.subrange(0, i as int));
            assert(done.last() == packages@[i as int]);
            // A package whose scan failed contributes no findings.
            match self.security_scanner.scan_package(package) {
                Ok(issues) => {
                    if issues.len() > 0 {
                        security_issues.push((clone_string(&package.name), issues));
                        assert(entries_view(security_issues@) =~= entries_view(before).push(
                            (package.name@, issues_view(issues@)),
                        ));
                    }
                },
                Err(_) => {},
            }
            i = i + 1;
        }
        assert(packages@.subrange(0, n as int) =~= packages@);

        Ok(DependencyAnalysis {
            total_dependencies: packages.len() - 1,
            direct_dependencies,
            dependency_tree,
            security_issues,
        })
    }
}

/// `tree` has an entry for `name` with `count` dependency names.
pub open spec fn has_entry(tree: Seq<(String, Vec<String>)>, name: Seq<char>, count: nat) -> bool {
    exists|j: int| 0 <= j < tree.len() && #[trigger] tree[j].0@ == name && tree[j].1@.len() == count
}

/// Every resolved package has an entry in the adjacency map, listing as many
/// names as the package declares direct dependencies.
pub proof fn lemma_graph_complete(tree: Seq<(String, Vec<String>)>, packages: Seq<Package>)
    requires
        is_adjacency_of(tree, packages),
    ensures
        forall|i: int| 0 <= i < packages.len() ==> has_entry(
            tree,
            (#[trigger] packages[i]).name@,
            packages[i].dependencies@.len(),
        ),
{
    assert forall|i: int| 0 <= i < packages.len() implies has_entry(
        tree,
        (#[trigger] packages[i]).name@,
        packages[i].dependencies@.len(),
    ) by {
        assert(tree[i].0@ == packages[i].name@);
        assert(strings_view(tree[i].1@).len() == dependency_names(packages[i].dependencies@).len());
        assert(tree[i].1@.len() == packages[i].dependencies@.len());
    }
}

/// No package is listed with an empty list of findings.
pub proof fn lemma_issue_entries_nonempty(rules: Seq<Rule>, packages: Seq<Package>)
    ensures
        forall|j: int| 0 <= j < issue_entries(rules, packages).len()
            ==> (#[trigger] issue_entries(rules, packages)[j]).1.len() > 0,
    decreases packages.len(),
{
    if packages.len() > 0 {
        lemma_issue_entries_nonempty(rules, packages.drop_last());
        let prev = issue_entries(rules, packages.drop_last());
        assert forall|j: int| 0 <= j < issue_entries(rules, packages).len()
            implies (#[trigger] issue_entries(rules, packages)[j]).1.len() > 0 by {
            if j < prev.len() {
                assert(issue_entries(rules, packages)[j] == prev[j]);
            }
        }
    }
}

} // verus!
