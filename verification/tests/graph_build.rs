use nargo::context::Lang;
use nargo::graph::CrateId;
use nargo::package::{Dependencies, Dependency, DependencyEntry, Package, PackageType};
use nargo::{prepare_dependencies, prepare_package};

fn package(root_dir: &str, entry_path: &str, entries: Vec<DependencyEntry>) -> Package {
    Package {
        root_dir: root_dir.to_string(),
        entry_path: entry_path.to_string(),
        package_type: PackageType::Binary,
        dependencies: Dependencies { entries },
    }
}

fn leaf(root_dir: &str, entry_path: &str) -> Package {
    package(root_dir, entry_path, Vec::new())
}

fn local(name: &str, package: Package) -> DependencyEntry {
    DependencyEntry { name: name.to_string(), dependency: Dependency::Local { package } }
}

fn remote(name: &str, package: Package) -> DependencyEntry {
    DependencyEntry { name: name.to_string(), dependency: Dependency::Remote { package } }
}

#[test]
fn empty_mapping_registers_only_the_root() {
    let root = leaf("/p", "/p/src/main.nr");
    let (context, root_id) = prepare_package(&root);
    assert_eq!(root_id.index, 0);
    assert_eq!(context.crate_graph.crates.len(), 1);
    assert_eq!(context.crate_graph.crates[0], "/p/src/main.nr");
    assert_eq!(context.crate_graph.edges.len(), 0);
    assert_eq!(context.file_manager.root_dir, "/p");
}

#[test]
fn two_locals_and_a_remote_with_a_nested_local() {
    // Root package P depends on "a" -> local A and "b" -> remote B;
    // A depends on "c" -> local C.
    let c = leaf("/c", "/c/src/lib.nr");
    let a = package("/a", "/a/src/lib.nr", vec![local("c", c)]);
    let b = leaf("/b", "/b/src/lib.nr");
    let p = package("/p", "/p/src/main.nr", vec![local("a", a), remote("b", b)]);

    let (context, root_id) = prepare_package(&p);
    assert_eq!(root_id.index, 0);

    let graph = &context.crate_graph;
    assert_eq!(graph.crates.len(), 4);
    assert_eq!(graph.crates[0], "/p/src/main.nr");
    assert_eq!(graph.crates[1], "/a/src/lib.nr");
    assert_eq!(graph.crates[2], "/c/src/lib.nr");
    assert_eq!(graph.crates[3], "/b/src/lib.nr");

    assert_eq!(graph.edges.len(), 3);
    assert_eq!(graph.edges[0].parent.index, 0);
    assert_eq!(graph.edges[0].child.index, 1);
    assert_eq!(graph.edges[0].name, "a");
    assert_eq!(graph.edges[1].parent.index, 1);
    assert_eq!(graph.edges[1].child.index, 2);
    assert_eq!(graph.edges[1].name, "c");
    assert_eq!(graph.edges[2].parent.index, 0);
    assert_eq!(graph.edges[2].child.index, 3);
    assert_eq!(graph.edges[2].name, "b");
}

#[test]
fn one_crate_per_package_and_one_edge_per_entry() {
    // Five packages in a tree with four dependency entries.
    let a1 = leaf("/a1", "/a1/src/lib.nr");
    let a2 = leaf("/a2", "/a2/src/lib.nr");
    let a = package("/a", "/a/src/lib.nr", vec![local("a1", a1), local("a2", a2)]);
    let b = leaf("/b", "/b/src/lib.nr");
    let root = package("/r", "/r/src/main.nr", vec![local("a", a), remote("b", b)]);

    let (context, _) = prepare_package(&root);
    assert_eq!(context.crate_graph.crates.len(), 5);
    assert_eq!(context.crate_graph.edges.len(), 4);
}

#[test]
fn parent_edges_follow_the_mapping_in_lexicographic_order() {
    let alpha = leaf("/alpha", "/alpha/src/lib.nr");
    let beta = leaf("/beta", "/beta/src/lib.nr");
    let gamma = leaf("/gamma", "/gamma/src/lib.nr");
    let root = package(
        "/r",
        "/r/src/main.nr",
        vec![local("alpha", alpha), remote("beta", beta), local("gamma", gamma)],
    );

    let (context, root_id) = prepare_package(&root);
    let graph = &context.crate_graph;
    let root_edges: Vec<&str> = graph
        .edges
        .iter()
        .filter(|edge| edge.parent.index == root_id.index)
        .map(|edge| edge.name.as_str())
        .collect();
    assert_eq!(root_edges, vec!["alpha", "beta", "gamma"]);
}

#[test]
fn rebuilding_the_same_mapping_duplicates_crates_and_edges() {
    let a = leaf("/a", "/a/src/lib.nr");
    let root = package("/r", "/r/src/main.nr", vec![local("a", a)]);

    let (mut context, root_id) = prepare_package(&root);
    assert_eq!(context.crate_graph.crates.len(), 2);
    assert_eq!(context.crate_graph.edges.len(), 1);

    // A second walk of the same mapping under the same parent merges
    // nothing: it adds a second crate for the same package and a second
    // edge under the same alias, pointing at the new crate.
    prepare_dependencies(&mut context, root_id, &root.dependencies);
    let graph = &context.crate_graph;
    assert_eq!(graph.crates.len(), 3);
    assert_eq!(graph.crates[1], "/a/src/lib.nr");
    assert_eq!(graph.crates[2], "/a/src/lib.nr");
    assert_eq!(graph.edges.len(), 2);
    assert_eq!(graph.edges[0].name, "a");
    assert_eq!(graph.edges[1].name, "a");
    assert_eq!(graph.edges[0].parent.index, 0);
    assert_eq!(graph.edges[1].parent.index, 0);
    assert_eq!(graph.edges[0].child.index, 1);
    assert_eq!(graph.edges[1].child.index, 2);
    assert_ne!(graph.edges[0].child.index, graph.edges[1].child.index);
}

#[test]
fn the_same_entry_file_on_two_paths_is_registered_twice() {
    // Two entries nest packages with the same entry file: no deduplication
    // by path, each path through the tree gets its own crate.
    let d1 = leaf("/d", "/d/src/lib.nr");
    let d2 = leaf("/d", "/d/src/lib.nr");
    let root = package("/r", "/r/src/main.nr", vec![local("one", d1), local("two", d2)]);

    let (context, _) = prepare_package(&root);
    let graph = &context.crate_graph;
    assert_eq!(graph.crates.len(), 3);
    assert_eq!(graph.crates[1], "/d/src/lib.nr");
    assert_eq!(graph.crates[2], "/d/src/lib.nr");
    assert_eq!(graph.edges[0].child.index, 1);
    assert_eq!(graph.edges[1].child.index, 2);
}

#[test]
fn a_deep_chain_is_walked_to_the_end() {
    // The walk recurses one level per nested package; packages own their
    // dependency trees outright, so a chain is finite and the walk ends.
    let mut chain: Package = leaf("/p25", "/p25/src/lib.nr");
    let mut depth: usize = 25;
    while depth > 0 {
        depth -= 1;
        let root_dir = format!("/p{}", depth);
        let entry_path = format!("/p{}/src/lib.nr", depth);
        chain = package(&root_dir, &entry_path, vec![local("next", chain)]);
    }

    let (context, _) = prepare_package(&chain);
    assert_eq!(context.crate_graph.crates.len(), 26);
    assert_eq!(context.crate_graph.edges.len(), 25);
    assert_eq!(context.crate_graph.crates[25], "/p25/src/lib.nr");
}

#[test]
fn grafting_onto_an_assembled_context_extends_the_graph() {
    let root = leaf("/r", "/r/src/main.nr");
    let (mut context, root_id) = prepare_package(&root);

    let extra = leaf("/x", "/x/src/lib.nr");
    let graft = Dependencies { entries: vec![remote("x", extra)] };
    prepare_dependencies(&mut context, root_id, &graft);

    let graph = &context.crate_graph;
    assert_eq!(graph.crates.len(), 2);
    assert_eq!(graph.crates[1], "/x/src/lib.nr");
    assert_eq!(graph.edges.len(), 1);
    assert_eq!(graph.edges[0].parent.index, 0);
    assert_eq!(graph.edges[0].child.index, 1);
    assert_eq!(graph.edges[0].name, "x");
}

#[test]
fn dependencies_may_hang_under_any_parent_identity() {
    let a = leaf("/a", "/a/src/lib.nr");
    let b = package("/b", "/b/src/lib.nr", Vec::new());
    let root = package("/r", "/r/src/main.nr", vec![local("a", a), local("b", b)]);
    let (mut context, _) = prepare_package(&root);

    // Graft one more dependency under crate 2 rather than under the root.
    let extra = leaf("/x", "/x/src/lib.nr");
    let graft = Dependencies { entries: vec![local("x", extra)] };
    prepare_dependencies(&mut context, CrateId { index: 2 }, &graft);

    let graph = &context.crate_graph;
    assert_eq!(graph.edges.len(), 3);
    assert_eq!(graph.edges[2].parent.index, 2);
    assert_eq!(graph.edges[2].child.index, 3);
    assert_eq!(graph.edges[2].name, "x");
}

#[test]
fn assembled_context_carries_the_selected_dialect() {
    let mut root = leaf("/r", "/r/src/main.nr");
    root.package_type = PackageType::Sol;
    let (context, _) = prepare_package(&root);
    assert_eq!(context.language, Lang::Solc);

    root.package_type = PackageType::Library;
    let (context, _) = prepare_package(&root);
    assert_eq!(context.language, Lang::Noir);
}
