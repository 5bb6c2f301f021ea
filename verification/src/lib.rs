use vstd::prelude::*;

pub mod context;
pub mod driver;
pub mod graph;
pub mod package;
pub mod props;

use crate::context::{Context, FileManager, Lang};
use crate::driver::{add_dep, prepare_crate, prepare_dependency};
use crate::graph::{empty_model, linked, registered, CrateGraph, CrateId, GraphModel};
use crate::package::{
    dep_package, lemma_entry_below_mapping, lemma_entry_owns_nested, Dependencies, DependencyEntry,
    Package, PackageType,
};

verus! {

/// The graph-model change of walking one dependency entry under `parent`:
/// the nested package is registered as a fresh crate, an edge from `parent`
/// to it is recorded under the entry's alias, and the walk recurses into the
/// nested package's own mapping with the fresh crate as parent.
pub open spec fn entry_effect(model: GraphModel, parent: int, entry: DependencyEntry) -> GraphModel
    decreases entry, 0int, 0int,
{
    let package = dep_package(entry.dependency);
    let child = model.crates.len() as int;
    let after_link = linked(registered(model, package.entry_path@), parent, child, entry.name@);
    let nested = package.dependencies.entries@;
    proof {
        lemma_entry_owns_nested(entry);
    }
    deps_effect_upto(after_link, child, nested, nested.len() as int)
}

/// The graph-model change of walking the first `n` entries of a dependency
/// mapping under `parent`, in mapping order.
pub open spec fn deps_effect_upto(
    model: GraphModel,
    parent: int,
    entries: Seq<DependencyEntry>,
    n: int,
) -> GraphModel
    decreases entries, 1int, n,
{
    if n <= 0 || n > entries.len() {
        model
    } else {
        let walked = deps_effect_upto(model, parent, entries, n - 1);
        proof {
            assert(decreases_to!(entries => entries[n - 1]));
        }
        entry_effect(walked, parent, entries[n - 1])
    }
}

/// The graph-model change of walking a whole dependency mapping under
/// `parent`.
pub open spec fn deps_effect(
    model: GraphModel,
    parent: int,
    entries: Seq<DependencyEntry>,
) -> GraphModel {
    deps_effect_upto(model, parent, entries, entries.len() as int)
}

/// The dialect selected for a package classification: the secondary
/// classification selects the alternate dialect; every other classification
/// selects the default.
pub open spec fn lang_of(package_type: PackageType) -> Lang {
    if package_type is Sol {
        Lang::Solc
    } else {
        Lang::Noir
    }
}

/// The graph model right after the root package's entry file is registered:
/// one crate, no edges.
pub open spec fn root_model(package: Package) -> GraphModel {
    registered(empty_model(), package.entry_path@)
}

/// The full graph model that assembling a session from `package` produces:
/// the root crate, then the walk of the root's dependency mapping with the
/// root as parent.
pub open spec fn package_model(package: Package) -> GraphModel {
    deps_effect(root_model(package), 0, package.dependencies.entries@)
}

/// Walks a dependency mapping under an already-registered parent crate: for
/// each entry in mapping order, registers the nested package's entry file as
/// a fresh crate, links it to the parent under the entry's alias, and
/// recurses into the nested package's own mapping.
///
/// Nothing is deduplicated: a package reachable along two paths is
/// registered and expanded once per path. The walk terminates because every
/// package owns its dependency tree outright, so the tree is finite and
/// cycle-free by construction.
pub fn prepare_dependencies(
    context: &mut Context,
    parent_crate: CrateId,
    dependencies: &Dependencies,
)
    ensures
        final(context).crate_graph.model() == deps_effect(
            old(context).crate_graph.model(),
            parent_crate.index as int,
            dependencies.entries@,
        ),
        final(context).file_manager == old(context).file_manager,
        final(context).language == old(context).language,
    decreases *dependencies,
{
    let ghost start_model = old(context).crate_graph.model();
    let ghost parent = parent_crate.index as int;
    let total = dependencies.entries.len();
    let mut i: usize = 0;
    while i < total
        invariant
            total == dependencies.entries.len(),
            i <= total,
            parent == parent_crate.index as int,
            context.crate_graph.model() == deps_effect_upto(
                start_model,
                parent,
                dependencies.entries@,
                i as int,
            ),
            context.file_manager == old(context).file_manager,
            context.language == old(context).language,
        decreases total - i,
    {
        let ghost before = context.crate_graph.model();
        let entry = &dependencies.entries[i];
        let package = entry.dependency.package();
        let crate_id = prepare_dependency(context, &package.entry_path);
        add_dep(context, parent_crate, crate_id, entry.name.clone());
        proof {
            assert(decreases_to!(*dependencies => dependencies.entries));
            assert(decreases_to!(dependencies.entries => dependencies.entries@));
            lemma_entry_below_mapping(dependencies.entries@, i as int);
            assert(decreases_to!(*dependencies => package.dependencies));
        }
        prepare_dependencies(context, crate_id, &package.dependencies);
        proof {
            let entries_view = dependencies.entries@;
            assert(context.crate_graph.model() == entry_effect(
                before,
                parent,
                entries_view[i as int],
            ));
            assert(deps_effect_upto(start_model, parent, entries_view, i as int + 1)
                == entry_effect(before, parent, entries_view[i as int]));
        }
        i = i + 1;
    }
}

/// Assembles a fresh compilation session from a root package: a reading
/// facility rooted at the package's directory, an empty crate graph, and the
/// dialect selected by the package's classification; then registers the root
/// package's entry file as the first crate and walks the root's dependency
/// mapping with it as parent. Returns the context and the root's identity.
pub fn prepare_package(package: &Package) -> (result: (Context, CrateId))
    ensures
        result.0.crate_graph.model() == package_model(*package),
        result.0.file_manager.root_dir == package.root_dir,
        result.0.language == lang_of(package.package_type),
        result.1.index == 0,
{
    let file_manager = FileManager::new(package.root_dir.clone());
    let graph = CrateGraph::default();

    let lang = get_lang(&package.package_type);
    let mut context = Context::new(file_manager, graph, lang);

    let crate_id = prepare_crate(&mut context, &package.entry_path);

    prepare_dependencies(&mut context, crate_id, &package.dependencies);

    (context, crate_id)
}

/// Selects the session dialect for a package classification. Exactly one
/// classification maps to the alternate dialect; every other one maps to the
/// default.
pub fn get_lang(package_type: &PackageType) -> (language: Lang)
    ensures
        language == lang_of(*package_type),
{
    if matches!(package_type, PackageType::Sol) {
        Lang::Solc
    } else {
        Lang::Noir
    }
}

} // verus!
