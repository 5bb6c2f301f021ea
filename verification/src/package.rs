use vstd::prelude::*;

verus! {

/// The classification tag of a package: how its sources are meant to be
/// consumed. Dialect selection reads this tag; everything else in the core
/// carries it through untouched.
#[derive(Clone, Copy, Debug, PartialEq, Eq, Structural)]
pub enum PackageType {
    Binary,
    Library,
    Contract,
    Sol,
}

/// A manifest-level description of one compilable unit: its source root
/// directory, the path of its entry source file, its classification tag, and
/// its named dependencies. Built by a loader outside this core and read-only
/// here.
#[derive(Debug)]
pub struct Package {
    pub root_dir: String,
    pub entry_path: String,
    pub package_type: PackageType,
    pub dependencies: Dependencies,
}

/// One dependency, tagged with its provenance: resolved from a registry
/// (`Remote`) or from the filesystem (`Local`). The tag exists for
/// diagnostics only; graph construction reads the nested package and treats
/// both variants alike.
#[derive(Debug)]
pub enum Dependency {
    Remote { package: Package },
    Local { package: Package },
}

/// One alias-to-dependency association of a package's dependency mapping.
#[derive(Debug)]
pub struct DependencyEntry {
    pub name: String,
    pub dependency: Dependency,
}

/// An ordered alias-to-dependency mapping. The loader that builds a package
/// keeps the entries sorted by alias name ([`sorted_by_name`]), which makes
/// graph construction deterministic; nothing here depends on that order for
/// soundness, only the registration-order results do.
#[derive(Debug)]
pub struct Dependencies {
    pub entries: Vec<DependencyEntry>,
}

/// The package nested in a dependency, whatever its provenance tag.
pub open spec fn dep_package(dependency: Dependency) -> Package {
    match dependency {
        Dependency::Remote { package } => package,
        Dependency::Local { package } => package,
    }
}

impl Dependency {
    /// The nested package, whatever the provenance tag.
    pub fn package(&self) -> (package: &Package)
        ensures
            *package == dep_package(*self),
    {
        match self {
            Dependency::Remote { package } => package,
            Dependency::Local { package } => package,
        }
    }
}

/// Strict lexicographic order on alias names, by character code.
pub open spec fn lex_lt(a: Seq<char>, b: Seq<char>) -> bool
    decreases a.len(),
{
    if b.len() == 0 {
        false
    } else if a.len() == 0 {
        true
    } else if a[0] != b[0] {
        (a[0] as int) < (b[0] as int)
    } else {
        lex_lt(a.drop_first(), b.drop_first())
    }
}

/// The mapping invariant: entries stand in strictly increasing alias order,
/// so alias names are unique among siblings and iteration is lexicographic.
pub open spec fn sorted_by_name(entries: Seq<DependencyEntry>) -> bool {
    forall|i: int, j: int|
        0 <= i < j < entries.len() ==> lex_lt(
            #[trigger] entries[i].name@,
            #[trigger] entries[j].name@,
        )
}

impl Dependencies {
    /// The mapping's entries stand in strictly increasing alias order.
    pub open spec fn sorted(self) -> bool {
        sorted_by_name(self.entries@)
    }
}

/// A dependency tree is finite because every entry owns the package nested
/// under it: that package's mapping stands strictly below the entry itself,
/// which is what every recursive walk of the tree decreases on.
pub proof fn lemma_entry_owns_nested(entry: DependencyEntry)
    ensures
        decreases_to!(entry => dep_package(entry.dependency).dependencies),
        decreases_to!(entry => dep_package(entry.dependency).dependencies.entries@),
{
    let dependency = entry.dependency;
    let package = dep_package(dependency);
    assert(decreases_to!(entry => dependency));
    match dependency {
        Dependency::Remote { .. } => {
            assert(decreases_to!(dependency => dependency->Remote_package));
            assert(package == dependency->Remote_package);
        }
        Dependency::Local { .. } => {
            assert(decreases_to!(dependency => dependency->Local_package));
            assert(package == dependency->Local_package);
        }
    }
    assert(decreases_to!(package => package.dependencies));
    assert(decreases_to!(package.dependencies => package.dependencies.entries));
    assert(decreases_to!(package.dependencies.entries => package.dependencies.entries@));
}

/// The mapping of the package nested under the `i`th entry stands strictly
/// below the mapping holding that entry.
pub proof fn lemma_entry_below_mapping(entries: Seq<DependencyEntry>, i: int)
    requires
        0 <= i < entries.len(),
    ensures
        decreases_to!(entries => dep_package(entries[i].dependency).dependencies),
        decreases_to!(entries => dep_package(entries[i].dependency).dependencies.entries@),
{
    assert(decreases_to!(entries => entries[i]));
    lemma_entry_owns_nested(entries[i]);
}

/// The number of dependency entries among the first `n` entries of a
/// mapping, the entries of the packages nested under them included. Each
/// entry nests exactly one package, so this also counts the packages that a
/// walk of those entries reaches.
pub open spec fn entry_count_upto(entries: Seq<DependencyEntry>, n: int) -> nat
    decreases entries, n,
{
    if n <= 0 || n > entries.len() {
        0
    } else {
        let nested = dep_package(entries[n - 1].dependency).dependencies.entries@;
        proof {
            lemma_entry_below_mapping(entries, n - 1);
        }
        entry_count_upto(entries, n - 1) + 1 + entry_count_upto(nested, nested.len() as int)
    }
}

/// The number of dependency entries of a whole mapping, nested ones included.
pub open spec fn entry_count(entries: Seq<DependencyEntry>) -> nat {
    entry_count_upto(entries, entries.len() as int)
}

} // verus!
