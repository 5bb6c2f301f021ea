use vstd::prelude::*;
use crate::graph::CrateGraph;

verus! {

/// The language dialect chosen for one compilation session.
#[derive(Clone, Copy, Debug, PartialEq, Eq, Structural)]
pub enum Lang {
    Noir,
    Solc,
}

/// The source-reading facility of one session, scoped to the root package's
/// directory. Reading itself is deferred to later compilation stages; this
/// core only constructs the facility and records its root.
#[derive(Debug)]
pub struct FileManager {
    pub root_dir: String,
}

impl FileManager {
    /// A reading facility rooted at `root_dir`.
    pub fn new(root_dir: String) -> (file_manager: FileManager)
        ensures
            file_manager.root_dir == root_dir,
    {
        FileManager { root_dir }
    }
}

/// The compilation session context: the source-reading facility, the crate
/// graph under construction, and the dialect chosen for the session. Created
/// once per session and exclusively owned by its caller.
#[derive(Debug)]
pub struct Context {
    pub file_manager: FileManager,
    pub crate_graph: CrateGraph,
    pub language: Lang,
}

impl Context {
    /// A session context owning the three given parts.
    pub fn new(file_manager: FileManager, crate_graph: CrateGraph, language: Lang) -> (context:
        Context)
        ensures
            context.file_manager == file_manager,
            context.crate_graph == crate_graph,
            context.language == language,
    {
        Context { file_manager, crate_graph, language }
    }
}

} // verus!
