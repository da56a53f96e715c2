use vstd::prelude::*;

use crate::table::{bindings_after, lemma_unnamed_key_unbound, lookup, opt_view, BindingTable};

verus! {

/// The route table: binds each agent identity to the endpoint where it is reached.
pub struct Router {
    routes: BindingTable,
}

impl View for Router {
    type V = Map<Seq<char>, Seq<char>>;

    closed spec fn view(&self) -> Map<Seq<char>, Seq<char>> {
        self.routes@
    }
}

impl Router {
    /// The endpoint that `agent_id` resolves to, if any.
    pub open spec fn resolved(&self, agent_id: Seq<char>) -> Option<Seq<char>> {
        lookup(self@, agent_id)
    }

    /// A table with no routes.
    pub fn new() -> (r: Self)
        ensures
            r@ == Map::<Seq<char>, Seq<char>>::empty(),
    {
        Router { routes: BindingTable::new() }
    }

    /// Binds `agent_id` to `endpoint`, replacing any endpoint it was bound to before.
    pub fn add_route(&mut self, agent_id: String, endpoint: String)
        ensures
            final(self)@ == old(self)@.insert(agent_id@, endpoint@),
    {
        self.routes.insert(agent_id, endpoint);
    }

    /// The endpoint bound to `agent_id`, or `None` for an agent with no route.
    pub fn get_route(&self, agent_id: &str) -> (r: Option<&String>)
        ensures
            opt_view(r) == self.resolved(agent_id@),
    {
        self.routes.get(agent_id)
    }
}

impl Clone for Router {
    fn clone(&self) -> (r: Self)
        ensures
            r@ == self@,
    {
        Router { routes: self.routes.clone() }
    }
}

impl Default for Router {
    fn default() -> (r: Self)
        ensures
            r@ == Map::<Seq<char>, Seq<char>>::empty(),
    {
        Router::new()
    }
}

/// After `add_route(id, e)` the agent `id` resolves to `e`; after a further
/// `add_route(id, f)` it resolves to `f`: the last registration wins.
pub proof fn route_registration_overwrites(
    before: Router,
    first: Router,
    second: Router,
    id: Seq<char>,
    e: Seq<char>,
    f: Seq<char>,
)
    requires
        first@ == before@.insert(id, e),
        second@ == first@.insert(id, f),
    ensures
        first.resolved(id) == Some(e),
        second.resolved(id) == Some(f),
{
}

/// A table built by `new` followed by `add_route` for each pair of `regs` in turn
/// leaves an agent that no pair names without a route.
pub proof fn unregistered_agent_is_absent(
    table: Router,
    regs: Seq<(Seq<char>, Seq<char>)>,
    id: Seq<char>,
)
    requires
        table@ == bindings_after(regs),
        forall|j: int| 0 <= j < regs.len() ==> (#[trigger] regs[j]).0 != id,
    ensures
        table.resolved(id) is None,
{
    lemma_unnamed_key_unbound(regs, id);
}

} // verus!
