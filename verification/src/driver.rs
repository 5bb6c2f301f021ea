use vstd::prelude::*;
use crate::context::Context;
use crate::graph::{linked, registered, CrateId};

verus! {

/// Registers a root package's entry source file in the session's graph and
/// returns the new crate identity. Only the graph changes: one more crate,
/// its path the given entry path.
pub fn prepare_crate(context: &mut Context, entry_path: &String) -> (crate_id: CrateId)
    ensures
        final(context).crate_graph.model() == registered(
            old(context).crate_graph.model(),
            entry_path@,
        ),
        crate_id.index == old(context).crate_graph.model().crates.len(),
        final(context).file_manager == old(context).file_manager,
        final(context).language == old(context).language,
{
    context.crate_graph.register(entry_path)
}

/// Registers a dependency package's entry source file in the session's
/// graph. Registration allocates a fresh identity unconditionally: the same
/// entry file registered twice yields two distinct crates.
pub fn prepare_dependency(context: &mut Context, entry_path: &String) -> (crate_id: CrateId)
    ensures
        final(context).crate_graph.model() == registered(
            old(context).crate_graph.model(),
            entry_path@,
        ),
        crate_id.index == old(context).crate_graph.model().crates.len(),
        final(context).file_manager == old(context).file_manager,
        final(context).language == old(context).language,
{
    context.crate_graph.register(entry_path)
}

/// Records the named dependency edge from `parent_crate` to `crate_id` in
/// the session's graph. Only the graph changes: one more edge.
pub fn add_dep(context: &mut Context, parent_crate: CrateId, crate_id: CrateId, name: String)
    ensures
        final(context).crate_graph.model() == linked(
            old(context).crate_graph.model(),
            parent_crate.index as int,
            crate_id.index as int,
            name@,
        ),
        final(context).file_manager == old(context).file_manager,
        final(context).language == old(context).language,
{
    context.crate_graph.link(parent_crate, crate_id, name);
}

} // verus!
