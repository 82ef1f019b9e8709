use vstd::prelude::*;

use crate::errors::{ExecError, ExecErrorView};
use crate::node::Node;
use crate::script::{BuildError, ScriptValue};
use crate::text::str_eq;

verus! {

/// The top-level declared object: an entrypoint name plus a graph of
/// uniquely named nodes, immutable once built.
#[derive(Debug)]
pub struct Workflow {
    pub entrypoint: String,
    pub graph: Vec<(String, Node)>,
}

/// The node under the first occurrence of `name`, if any.
pub open spec fn graph_lookup(graph: Seq<(String, Node)>, name: Seq<char>) -> Option<Node>
    decreases graph.len(),
{
    if graph.len() == 0 {
        None
    } else if graph[0].0@ == name {
        Some(graph[0].1)
    } else {
        graph_lookup(graph.drop_first(), name)
    }
}

/// Builds a workflow from a `workflow(entrypoint = ..., graph = ...)`
/// declaration: every graph element must be a node, and node names must
/// be unique.
pub fn workflow_impl(entrypoint: &str, nodes: Vec<ScriptValue>) -> (r: Result<
    Workflow,
    BuildError,
>)
    ensures
        match r {
            Ok(w) => {
                &&& w.entrypoint@ == entrypoint@
                &&& w.graph@.len() == nodes@.len()
                &&& forall|i: int|
                    0 <= i < nodes@.len() ==> nodes@[i] == ScriptValue::Node(w.graph@[i].1)
                        && w.graph@[i].0@ == w.graph@[i].1.name@
                &&& forall|i: int, j: int|
                    0 <= i < j < w.graph@.len() ==> w.graph@[i].0@ != w.graph@[j].0@
            },
            Err(e) => (e is NotANodeInGraph && exists|i: int|
                0 <= i < nodes@.len() && !(nodes@[i] is Node)) || (e is DuplicateNodeName
                && exists|i: int, j: int|
                0 <= i < j < nodes@.len() && nodes@[i] is Node && nodes@[j] is Node
                    && nodes@[i]->Node_0.name@ == nodes@[j]->Node_0.name@),
        },
{
    let ghost orig = nodes@;
    let mut nodes = nodes;
    let mut graph: Vec<(String, Node)> = Vec::new();
    #[verifier::loop_isolation(false)]
    while nodes.len() > 0
        invariant
            nodes@ =~= orig.skip(graph@.len() as int),
            graph@.len() <= orig.len(),
            forall|i: int|
                0 <= i < graph@.len() ==> orig[i] == ScriptValue::Node(graph@[i].1)
                    && graph@[i].0@ == graph@[i].1.name@,
            forall|i: int, j: int| 0 <= i < j < graph@.len() ==> graph@[i].0@ != graph@[j].0@,
        decreases nodes@.len(),
    {
        let ghost k = graph@.len() as int;
        assert(nodes@[0] == orig[k]);
        let v = nodes.remove(0);
        let node = match v {
            ScriptValue::Node(n) => n,
            _ => {
                return Err(BuildError::NotANodeInGraph);
            },
        };
        let m = graph.len();
        let mut i: usize = 0;
        #[verifier::loop_isolation(false)]
        while i < m
            invariant
                0 <= i <= m,
                m == graph@.len(),
                forall|j: int| 0 <= j < i ==> graph@[j].0@ != node.name@,
            decreases m - i,
        {
            if str_eq(graph[i].0.as_str(), node.name.as_str()) {
                assert(orig[i as int] is Node && orig[k] is Node && orig[i as int]->Node_0.name@
                    == orig[k]->Node_0.name@);
                return Err(BuildError::DuplicateNodeName);
            }
            i = i + 1;
        }
        let name = node.name.clone();
        graph.push((name, node));
        assert(nodes@ =~= orig.skip(k + 1));
    }
    Ok(Workflow { entrypoint: entrypoint.to_owned(), graph })
}

impl Workflow {
    pub fn entrypoint(&self) -> (r: &str)
        ensures
            r@ == self.entrypoint@,
    {
        self.entrypoint.as_str()
    }

    /// The node under `name`, or a distinct error when the graph has
    /// none.
    pub fn node_with_name(&self, name: &str) -> (r: Result<&Node, ExecError>)
        ensures
            match graph_lookup(self.graph@, name@) {
                Some(n) => r matches Ok(rn) && *rn == n,
                None => r matches Err(e) && e@ == ExecErrorView::NoNodeWithName(name@),
            },
    {
        let m = self.graph.len();
        let mut i: usize = 0;
        assert(self.graph@.skip(0) =~= self.graph@);
        #[verifier::loop_isolation(false)]
        while i < m
            invariant
                0 <= i <= m,
                m == self.graph@.len(),
                graph_lookup(self.graph@, name@) == graph_lookup(
                    self.graph@.skip(i as int),
                    name@,
                ),
            decreases m - i,
        {
            let ghost tail = self.graph@.skip(i as int);
            assert(tail[0] == self.graph@[i as int]);
            if str_eq(self.graph[i].0.as_str(), name) {
                return Ok(&self.graph[i].1);
            }
            assert(tail.drop_first() =~= self.graph@.skip(i as int + 1));
            i = i + 1;
        }
        assert(self.graph@.skip(m as int) =~= Seq::<(String, Node)>::empty());
        Err(ExecError::NoNodeWithName(name.to_owned()))
    }

    /// The node the walk starts from: a single-node graph runs its one
    /// node whatever the entrypoint says; a larger graph requires the
    /// entrypoint to name a node; an empty graph is always an error.
    pub fn first_node(&self) -> (r: Result<&Node, ExecError>)
        ensures
            match r {
                Ok(n) => {
                    if self.graph@.len() == 1 {
                        *n == self.graph@[0].1
                    } else {
                        self.graph@.len() > 1 && graph_lookup(self.graph@, self.entrypoint@)
                            == Some(*n)
                    }
                },
                Err(e) => {
                    if self.graph@.len() == 0 {
                        e@ == ExecErrorView::EmptyGraph
                    } else {
                        self.graph@.len() > 1 && graph_lookup(self.graph@, self.entrypoint@)
                            is None && e@ == ExecErrorView::NoNodeWithName(self.entrypoint@)
                    }
                },
            },
    {
        let n = self.graph.len();
        if n == 0 {
            Err(ExecError::EmptyGraph)
        } else if n == 1 {
            Ok(&self.graph[0].1)
        } else {
            let ep = self.entrypoint.clone();
            self.node_with_name(ep.as_str())
        }
    }

    /// Decides how the walk continues once a node has yielded the next
    /// node's name (or none): a name must exist in the graph, and no
    /// name ends the walk.
    pub fn walk_next(&self, next: Option<&str>) -> (r: Result<Option<&Node>, ExecError>)
        ensures
            match next {
                None => r matches Ok(o) && o is None,
                Some(name) => match graph_lookup(self.graph@, name@) {
                    Some(n) => r matches Ok(Some(rn)) && *rn == n,
                    None => r matches Err(e) && e@ == ExecErrorView::NoNodeWithName(name@),
                },
            },
    {
        match next {
            None => Ok(None),
            Some(name) => match self.node_with_name(name) {
                Ok(n) => Ok(Some(n)),
                Err(e) => Err(e),
            },
        }
    }
}

} // verus!
