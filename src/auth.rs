use vstd::prelude::*;

use crate::table::{bindings_after, lemma_unnamed_key_unbound, lookup, opt_view, BindingTable};

verus! {

/// The token store: binds each authentication token to the agent identity it authorizes.
pub struct AuthManager {
    tokens: BindingTable,
}

impl View for AuthManager {
    type V = Map<Seq<char>, Seq<char>>;

    closed spec fn view(&self) -> Map<Seq<char>, Seq<char>> {
        self.tokens@
    }
}

impl AuthManager {
    /// The agent identity that `token` resolves to, if any.
    pub open spec fn resolved(&self, token: Seq<char>) -> Option<Seq<char>> {
        lookup(self@, token)
    }

    /// A store with no tokens.
    pub fn new() -> (r: Self)
        ensures
            r@ == Map::<Seq<char>, Seq<char>>::empty(),
    {
        AuthManager { tokens: BindingTable::new() }
    }

    /// Binds `token` to `agent_id`, replacing any identity it was bound to before.
    pub fn add_token(&mut self, token: String, agent_id: String)
        ensures
            final(self)@ == old(self)@.insert(token@, agent_id@),
    {
        self.tokens.insert(token, agent_id);
    }

    /// The identity bound to `token`, or `None` for a token that is not registered.
    pub fn verify_token(&self, token: &str) -> (r: Option<&String>)
        ensures
            opt_view(r) == self.resolved(token@),
    {
        self.tokens.get(token)
    }
}

impl Clone for AuthManager {
    fn clone(&self) -> (r: Self)
        ensures
            r@ == self@,
    {
        AuthManager { tokens: self.tokens.clone() }
    }
}

impl Default for AuthManager {
    fn default() -> (r: Self)
        ensures
            r@ == Map::<Seq<char>, Seq<char>>::empty(),
    {
        AuthManager::new()
    }
}

/// After `add_token(t, a)` the token `t` resolves to `a`; after a further
/// `add_token(t, b)` it resolves to `b`: the last registration wins.
pub proof fn token_registration_overwrites(
    before: AuthManager,
    first: AuthManager,
    second: AuthManager,
    t: Seq<char>,
    a: Seq<char>,
    b: Seq<char>,
)
    requires
        first@ == before@.insert(t, a),
        second@ == first@.insert(t, b),
    ensures
        first.resolved(t) == Some(a),
        second.resolved(t) == Some(b),
{
}

/// A store built by `new` followed by `add_token` for each pair of `regs` in turn
/// leaves a token that no pair names unresolved.
pub proof fn unregistered_token_is_absent(
    store: AuthManager,
    regs: Seq<(Seq<char>, Seq<char>)>,
    t: Seq<char>,
)
    requires
        store@ == bindings_after(regs),
        forall|j: int| 0 <= j < regs.len() ==> (#[trigger] regs[j]).0 != t,
    ensures
        store.resolved(t) is None,
{
    lemma_unnamed_key_unbound(regs, t);
}

} // verus!
