use vstd::prelude::*;
use crate::context::Lang;
use crate::graph::{EdgeModel, GraphModel};
use crate::package::{
    dep_package, entry_count, entry_count_upto, lemma_entry_owns_nested, lex_lt, sorted_by_name,
    DependencyEntry, Package, PackageType,
};
use crate::{deps_effect, deps_effect_upto, entry_effect, lang_of, package_model, root_model};

verus! {

/// Nothing passes the filter, so the filter keeps nothing.
proof fn lemma_filter_all_out<A>(s: Seq<A>, pred: spec_fn(A) -> bool)
    requires
        forall|i: int| 0 <= i < s.len() ==> !pred(#[trigger] s[i]),
    ensures
        s.filter(pred) == Seq::<A>::empty(),
    decreases s.len(),
{
    reveal(Seq::filter);
    if s.len() != 0 {
        assert(forall|i: int|
            0 <= i < s.drop_last().len() ==> !pred(#[trigger] s.drop_last()[i]));
        lemma_filter_all_out(s.drop_last(), pred);
    }
    assert(s.filter(pred) =~= Seq::<A>::empty());
}

/// The one element passes the filter, so the filter keeps it.
proof fn lemma_filter_one_in<A>(s: Seq<A>, pred: spec_fn(A) -> bool)
    requires
        s.len() == 1,
        pred(s[0]),
    ensures
        s.filter(pred) == s,
{
    reveal_with_fuel(Seq::filter, 2);
    assert(s.drop_last() =~= Seq::<A>::empty());
    assert(s.filter(pred) =~= s);
}

/// Walking one entry registers the nested package and one crate per entry
/// nested under it, and records one edge per each of those: the first new
/// edge links `parent` to the nested package's fresh crate under the
/// entry's alias, and every later new edge has a parent and a child among
/// the crates this walk registered.
pub proof fn lemma_entry_effect_shape(model: GraphModel, parent: int, entry: DependencyEntry)
    ensures
        ({
            let walked = entry_effect(model, parent, entry);
            let nested = dep_package(entry.dependency).dependencies.entries@;
            &&& walked.crates.len() == model.crates.len() + 1 + entry_count(nested)
            &&& walked.edges.len() == model.edges.len() + 1 + entry_count(nested)
            &&& forall|k: int|
                0 <= k < model.crates.len() ==> #[trigger] walked.crates[k] == model.crates[k]
            &&& forall|k: int|
                0 <= k < model.edges.len() ==> #[trigger] walked.edges[k] == model.edges[k]
            &&& walked.edges[model.edges.len() as int] == (EdgeModel {
                parent,
                child: model.crates.len() as int,
                name: entry.name@,
            })
            &&& forall|k: int|
                model.edges.len() < k < walked.edges.len() ==> (#[trigger] walked.edges[k]).parent
                    >= model.crates.len()
            &&& forall|k: int|
                model.edges.len() <= k < walked.edges.len() ==> model.crates.len() <= (
                #[trigger] walked.edges[k]).child < walked.crates.len()
        }),
    decreases entry, 0int, 0int,
{
    lemma_entry_owns_nested(entry);
    let package = dep_package(entry.dependency);
    let nested = package.dependencies.entries@;
    let child = model.crates.len() as int;
    let after_link = crate::graph::linked(
        crate::graph::registered(model, package.entry_path@),
        parent,
        child,
        entry.name@,
    );
    lemma_deps_effect_upto_shape(after_link, child, nested, nested.len() as int);
}

/// Walking the first `n` entries of a mapping registers one crate and one
/// edge per entry walked, nested ones included; it only appends to the
/// graph, every new edge's parent is `parent` or a crate this walk
/// registered, and every new edge's child is a crate this walk registered.
pub proof fn lemma_deps_effect_upto_shape(
    model: GraphModel,
    parent: int,
    entries: Seq<DependencyEntry>,
    n: int,
)
    requires
        0 <= n <= entries.len(),
    ensures
        ({
            let walked = deps_effect_upto(model, parent, entries, n);
            &&& walked.crates.len() == model.crates.len() + entry_count_upto(entries, n)
            &&& walked.edges.len() == model.edges.len() + entry_count_upto(entries, n)
            &&& forall|k: int|
                0 <= k < model.crates.len() ==> #[trigger] walked.crates[k] == model.crates[k]
            &&& forall|k: int|
                0 <= k < model.edges.len() ==> #[trigger] walked.edges[k] == model.edges[k]
            &&& forall|k: int|
                model.edges.len() <= k < walked.edges.len() ==> ((#[trigger] walked.edges[k]).parent
                    == parent || walked.edges[k].parent >= model.crates.len())
            &&& forall|k: int|
                model.edges.len() <= k < walked.edges.len() ==> model.crates.len() <= (
                #[trigger] walked.edges[k]).child < walked.crates.len()
        }),
    decreases entries, 1int, n,
{
    if n > 0 {
        lemma_deps_effect_upto_shape(model, parent, entries, n - 1);
        assert(decreases_to!(entries => entries[n - 1]));
        let walked_prefix = deps_effect_upto(model, parent, entries, n - 1);
        lemma_entry_effect_shape(walked_prefix, parent, entries[n - 1]);
    }
}

/// One entry is one registered crate, so a walk registers at least as many
/// crates as the mapping has entries.
proof fn lemma_entry_count_at_least(entries: Seq<DependencyEntry>, n: int)
    requires
        0 <= n <= entries.len(),
    ensures
        entry_count_upto(entries, n) >= n,
    decreases n,
{
    if n > 0 {
        lemma_entry_count_at_least(entries, n - 1);
    }
}

/// In a dependency tree every package is owned by exactly one entry, so no
/// package is reachable along two paths: the walk of a mapping registers
/// exactly one crate per package it reaches and exactly one edge per
/// dependency entry, on top of whatever the graph already held.
pub proof fn lemma_dependency_walk_counts(
    model: GraphModel,
    parent: int,
    entries: Seq<DependencyEntry>,
)
    ensures
        deps_effect(model, parent, entries).crates.len() == model.crates.len() + entry_count(
            entries,
        ),
        deps_effect(model, parent, entries).edges.len() == model.edges.len() + entry_count(entries),
{
    lemma_deps_effect_upto_shape(model, parent, entries, entries.len() as int);
}

/// Assembling a session from a root package registers one crate per package
/// of the tree, the root included, and one edge per dependency entry.
pub proof fn lemma_package_model_counts(package: Package)
    ensures
        package_model(package).crates.len() == 1 + entry_count(package.dependencies.entries@),
        package_model(package).edges.len() == entry_count(package.dependencies.entries@),
{
    lemma_dependency_walk_counts(root_model(package), 0, package.dependencies.entries@);
}

/// The aliases of the new edges whose parent is the given, already
/// registered crate are exactly the walked mapping's keys, one edge per
/// entry, in mapping order.
pub proof fn lemma_parent_edge_aliases(
    model: GraphModel,
    parent: int,
    entries: Seq<DependencyEntry>,
)
    requires
        0 <= parent < model.crates.len(),
    ensures
        ({
            let walked = deps_effect(model, parent, entries);
            let for_parent = walked.edges.skip(model.edges.len() as int).filter(
                |edge: EdgeModel| edge.parent == parent,
            );
            &&& for_parent.len() == entries.len()
            &&& forall|k: int|
                0 <= k < entries.len() ==> (#[trigger] for_parent[k]).name == entries[k].name@
        }),
{
    lemma_parent_edge_aliases_upto(model, parent, entries, entries.len() as int);
}

/// The walk of the first `n` entries, seen through the edges it records for
/// `parent` itself: one edge per entry, keys in mapping order.
proof fn lemma_parent_edge_aliases_upto(
    model: GraphModel,
    parent: int,
    entries: Seq<DependencyEntry>,
    n: int,
)
    requires
        0 <= parent < model.crates.len(),
        0 <= n <= entries.len(),
    ensures
        ({
            let walked = deps_effect_upto(model, parent, entries, n);
            let for_parent = walked.edges.skip(model.edges.len() as int).filter(
                |edge: EdgeModel| edge.parent == parent,
            );
            &&& for_parent.len() == n
            &&& forall|k: int|
                0 <= k < n ==> (#[trigger] for_parent[k]).name == entries[k].name@
        }),
    decreases n,
{
    let pred = |edge: EdgeModel| edge.parent == parent;
    let start = model.edges.len() as int;
    if n == 0 {
        let walked = deps_effect_upto(model, parent, entries, 0);
        assert(walked.edges.skip(start) =~= Seq::<EdgeModel>::empty());
        lemma_filter_all_out(walked.edges.skip(start), pred);
    } else {
        lemma_parent_edge_aliases_upto(model, parent, entries, n - 1);
        let previous = deps_effect_upto(model, parent, entries, n - 1);
        let entry = entries[n - 1];
        let walked = deps_effect_upto(model, parent, entries, n);
        lemma_deps_effect_upto_shape(model, parent, entries, n - 1);
        lemma_entry_effect_shape(previous, parent, entry);
        assert(walked == entry_effect(previous, parent, entry));

        let direct = EdgeModel {
            parent,
            child: previous.crates.len() as int,
            name: entry.name@,
        };
        let previous_new = previous.edges.skip(start);
        let nested_new = walked.edges.skip(previous.edges.len() as int + 1);
        assert(walked.edges.skip(start) =~= previous_new + seq![direct] + nested_new);

        Seq::<EdgeModel>::filter_distributes_over_add(previous_new + seq![direct], nested_new, pred);
        Seq::<EdgeModel>::filter_distributes_over_add(previous_new, seq![direct], pred);
        lemma_filter_one_in(seq![direct], pred);
        assert(forall|i: int| 0 <= i < nested_new.len() ==> !pred(#[trigger] nested_new[i])) by {
            assert(forall|i: int|
                0 <= i < nested_new.len() ==> (#[trigger] nested_new[i]).parent
                    >= previous.crates.len());
        }
        lemma_filter_all_out(nested_new, pred);
        assert(walked.edges.skip(start).filter(pred) =~= previous_new.filter(pred).push(direct));
    }
}

/// With the mapping sorted by alias, the aliases of the edges the walk
/// records for the parent stand in strictly increasing lexicographic order:
/// registration order is lexicographic order.
pub proof fn lemma_parent_edge_aliases_lex_order(
    model: GraphModel,
    parent: int,
    entries: Seq<DependencyEntry>,
)
    requires
        0 <= parent < model.crates.len(),
        sorted_by_name(entries),
    ensures
        ({
            let walked = deps_effect(model, parent, entries);
            let for_parent = walked.edges.skip(model.edges.len() as int).filter(
                |edge: EdgeModel| edge.parent == parent,
            );
            forall|i: int, j: int|
                0 <= i < j < for_parent.len() ==> lex_lt(
                    (#[trigger] for_parent[i]).name,
                    (#[trigger] for_parent[j]).name,
                )
        }),
{
    lemma_parent_edge_aliases(model, parent, entries);
}

/// Walking the same mapping twice under the same parent merges nothing: the
/// second walk leaves the first walk's crates and edges in place and adds a
/// second, equally large set, whose edges all point at crates the first
/// walk did not register. With a non-empty mapping the result of the second
/// walk therefore differs from the first: the walk is not idempotent.
pub proof fn lemma_rebuild_duplicates(
    model: GraphModel,
    parent: int,
    entries: Seq<DependencyEntry>,
)
    ensures
        ({
            let once = deps_effect(model, parent, entries);
            let twice = deps_effect(once, parent, entries);
            &&& twice.crates.len() == model.crates.len() + 2 * entry_count(entries)
            &&& twice.edges.len() == model.edges.len() + 2 * entry_count(entries)
            &&& forall|k: int|
                0 <= k < once.crates.len() ==> #[trigger] twice.crates[k] == once.crates[k]
            &&& forall|k: int|
                0 <= k < once.edges.len() ==> #[trigger] twice.edges[k] == once.edges[k]
            &&& forall|k: int|
                once.edges.len() <= k < twice.edges.len() ==> once.crates.len() <= (
                #[trigger] twice.edges[k]).child
            &&& entries.len() > 0 ==> twice.crates.len() > once.crates.len()
        }),
{
    lemma_deps_effect_upto_shape(model, parent, entries, entries.len() as int);
    let once = deps_effect(model, parent, entries);
    lemma_deps_effect_upto_shape(once, parent, entries, entries.len() as int);
    lemma_entry_count_at_least(entries, entries.len() as int);
}

/// Exactly one classification selects the alternate dialect; every other
/// classification selects the default.
pub proof fn lemma_dialect_selection()
    ensures
        lang_of(PackageType::Sol) == Lang::Solc,
        forall|package_type: PackageType|
            package_type != PackageType::Sol ==> #[trigger] lang_of(package_type) == Lang::Noir,
{
}

} // verus!
