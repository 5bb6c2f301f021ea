use vstd::prelude::*;

verus! {

/// The identity of one registered crate: its index into the graph's node
/// list. One identity per registration call; registering the same entry file
/// twice yields two distinct identities.
#[derive(Clone, Copy, Debug, PartialEq, Eq, Structural)]
pub struct CrateId {
    pub index: usize,
}

/// A named directed edge of the crate graph: `parent` depends on `child`
/// under the alias `name`. Alias names are unique among the edges of one
/// parent, not graph-wide.
#[derive(Debug)]
pub struct Edge {
    pub parent: CrateId,
    pub child: CrateId,
    pub name: String,
}

/// The node/edge structure recording all crates registered in one session:
/// the entry source path of each crate, by identity index, and the named
/// dependency edges between them.
#[derive(Debug)]
pub struct CrateGraph {
    pub crates: Vec<String>,
    pub edges: Vec<Edge>,
}

/// Ghost model of one edge: parent and child identity as plain integers and
/// the alias as a character sequence.
#[verifier::ext_equal]
pub struct EdgeModel {
    pub parent: int,
    pub child: int,
    pub name: Seq<char>,
}

/// Ghost model of a crate graph: the registered entry paths, in registration
/// order, and the edges, in linking order.
#[verifier::ext_equal]
pub struct GraphModel {
    pub crates: Seq<Seq<char>>,
    pub edges: Seq<EdgeModel>,
}

/// The model of a graph with nothing registered.
pub open spec fn empty_model() -> GraphModel {
    GraphModel { crates: Seq::empty(), edges: Seq::empty() }
}

/// The model after one registration: one more crate, the edges unchanged.
pub open spec fn registered(model: GraphModel, entry_path: Seq<char>) -> GraphModel {
    GraphModel { crates: model.crates.push(entry_path), edges: model.edges }
}

/// The model after one linking: one more edge, the crates unchanged.
pub open spec fn linked(model: GraphModel, parent: int, child: int, name: Seq<char>) -> GraphModel {
    GraphModel {
        crates: model.crates,
        edges: model.edges.push(EdgeModel { parent, child, name }),
    }
}

impl CrateGraph {
    /// The graph as its ghost model.
    pub open spec fn model(self) -> GraphModel {
        GraphModel {
            crates: self.crates@.map_values(|entry_path: String| entry_path@),
            edges: self.edges@.map_values(
                |edge: Edge|
                    EdgeModel {
                        parent: edge.parent.index as int,
                        child: edge.child.index as int,
                        name: edge.name@,
                    },
            ),
        }
    }

    /// Registers one entry source file as a new crate. The new identity is
    /// the next free index; nothing is deduplicated.
    pub fn register(&mut self, entry_path: &String) -> (crate_id: CrateId)
        ensures
            final(self).model() == registered(old(self).model(), entry_path@),
            crate_id.index == old(self).model().crates.len(),
    {
        let index = self.crates.len();
        self.crates.push(entry_path.clone());
        proof {
            let target = registered(old(self).model(), entry_path@);
            assert(self.model().crates =~= target.crates);
            assert(self.model().edges =~= target.edges);
            assert(self.model() =~= target);
        }
        CrateId { index }
    }

    /// Records one named directed edge between two crate identities.
    pub fn link(&mut self, parent: CrateId, child: CrateId, name: String)
        ensures
            final(self).model() == linked(
                old(self).model(),
                parent.index as int,
                child.index as int,
                name@,
            ),
    {
        let ghost name_view = name@;
        self.edges.push(Edge { parent, child, name });
        proof {
            let target = linked(
                old(self).model(),
                parent.index as int,
                child.index as int,
                name_view,
            );
            assert(self.model().crates =~= target.crates);
            assert(self.model().edges =~= target.edges);
            assert(self.model() =~= target);
        }
    }
}

impl Default for CrateGraph {
    /// A graph with no crates and no edges.
    fn default() -> (graph: CrateGraph)
        ensures
            graph.model() == empty_model(),
    {
        let graph = CrateGraph { crates: Vec::new(), edges: Vec::new() };
        proof {
            assert(graph.model().crates =~= empty_model().crates);
            assert(graph.model().edges =~= empty_model().edges);
            assert(graph.model() =~= empty_model());
        }
        graph
    }
}

} // verus!
