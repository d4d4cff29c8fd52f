use vstd::prelude::*;

verus! {

/// Guard that makes the stack's stop operation run at most once per run.
///
/// It is armed (active) when the stack comes up. `cleanup` reports, with an
/// internal check-and-set, whether the caller must now invoke the compose
/// engine's `down` on the workspace; once it has answered `true` every later
/// call answers `false`, however many exit paths ask.
pub struct ComposeGuard {
    workspace_root: String,
    active: bool,
}

impl ComposeGuard {
    /// Whether the stop operation is still owed.
    pub closed spec fn spec_active(self) -> bool {
        self.active
    }

    /// The workspace root the stop operation must be pointed at.
    pub closed spec fn spec_root(self) -> Seq<char> {
        self.workspace_root@
    }

    /// Arm the guard over a freshly started stack.
    pub fn new(workspace_root: String) -> (g: ComposeGuard)
        ensures
            g.spec_active(),
            g.spec_root() == workspace_root@,
    {
        ComposeGuard { workspace_root, active: true }
    }

    /// One teardown request: answers `true` exactly on the first call.
    pub fn cleanup(&mut self) -> (run_down: bool)
        ensures
            cleanup_rel(*old(self), *final(self), run_down),
    {
        if self.active {
            self.active = false;
            true
        } else {
            false
        }
    }

    /// Whether the stop operation is still owed.
    pub fn is_active(&self) -> (r: bool)
        ensures
            r == self.spec_active(),
    {
        self.active
    }

    /// The workspace root this guard watches over.
    pub fn workspace_root(&self) -> (r: &String)
        ensures
            r@ == self.spec_root(),
    {
        &self.workspace_root
    }
}

/// What one `cleanup` call does: it answers whether the guard was still
/// active, deactivates it, and leaves the workspace root alone.
pub open spec fn cleanup_rel(pre: ComposeGuard, post: ComposeGuard, ran: bool) -> bool {
    &&& ran == pre.spec_active()
    &&& !post.spec_active()
    &&& post.spec_root() == pre.spec_root()
}

/// Asking the guard to tear down twice runs the stop operation at most once:
/// whatever state the guard starts in, the second request is a no-op.
pub proof fn lemma_teardown_at_most_once(
    g0: ComposeGuard,
    g1: ComposeGuard,
    g2: ComposeGuard,
    ran_first: bool,
    ran_second: bool,
)
    requires
        cleanup_rel(g0, g1, ran_first),
        cleanup_rel(g1, g2, ran_second),
    ensures
        !ran_second,
        !(ran_first && ran_second),
{
}

} // verus!
