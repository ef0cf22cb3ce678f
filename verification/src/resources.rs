//! The graphics actions the library can request, and a model of which
//! handles each action needs.
//!
//! The driver owns three handles: the graphics context, the linked shader
//! program, and the mesh (vertex buffer plus vertex array).  A [`Resources`]
//! value records which of them are currently alive.  [`action_enabled`]
//! says when an action can run without using an absent or freed handle, and
//! [`apply_action`] says which handles are alive afterwards.  [`seq_enabled`]
//! lifts this to a whole sequence of actions run in order: it is the
//! admissibility judgment that the lifecycle state machine is proved to
//! satisfy for everything it emits.

use vstd::prelude::*;

verus! {

/// A graphics operation that the event-loop driver is asked to perform.
///
/// The library never touches the graphics API itself: `App::step` emits a
/// sequence of these actions and the unverified driver carries them out in
/// order against the real window and context.
#[derive(Clone, Copy, Debug, PartialEq, Eq, Structural)]
pub enum Action {
    /// Create the native window and graphics context and make it current.
    CreateContext,
    /// Compile both shader stages and link the shader program.
    CreateProgram,
    /// Upload the vertex buffer and describe it with a vertex array.
    CreateMesh,
    /// Set the viewport to the given size in pixels.
    SetViewport { width: u32, height: u32 },
    /// Clear the screen, draw the mesh, and swap buffers.
    Draw,
    /// Delete the shader program.
    DeleteProgram,
    /// Delete the vertex buffer and the vertex array.
    DeleteMesh,
    /// Release the window and its graphics context.
    DestroyContext,
    /// Stop the event loop.
    Exit,
}

/// Which of the three graphics handles are currently alive.
#[derive(Clone, Copy, Debug, PartialEq, Eq, Structural)]
pub struct Resources {
    /// The graphics context bound to the window surface.
    pub context: bool,
    /// The linked shader program.
    pub program: bool,
    /// The mesh: vertex buffer and vertex array.
    pub mesh: bool,
}

/// When an action can run without using an absent or freed handle.
///
/// Creating a resource needs a live context and must not leak a handle that
/// already exists; drawing needs all three handles; deleting needs the
/// handle it frees (and the context to talk to); and the context may only
/// go away once the program and the mesh already have, since both die with
/// it.
pub open spec fn action_enabled(r: Resources, a: Action) -> bool {
    match a {
        Action::CreateContext => !r.context,
        Action::CreateProgram => r.context && !r.program,
        Action::CreateMesh => r.context && !r.mesh,
        Action::SetViewport { .. } => r.context,
        Action::Draw => r.context && r.program && r.mesh,
        Action::DeleteProgram => r.context && r.program,
        Action::DeleteMesh => r.context && r.mesh,
        Action::DestroyContext => r.context && !r.program && !r.mesh,
        Action::Exit => true,
    }
}

/// Which handles are alive after the action ran.
pub open spec fn apply_action(r: Resources, a: Action) -> Resources {
    match a {
        Action::CreateContext => Resources { context: true, ..r },
        Action::CreateProgram => Resources { program: true, ..r },
        Action::CreateMesh => Resources { mesh: true, ..r },
        Action::SetViewport { .. } => r,
        Action::Draw => r,
        Action::DeleteProgram => Resources { program: false, ..r },
        Action::DeleteMesh => Resources { mesh: false, ..r },
        Action::DestroyContext => Resources { context: false, ..r },
        Action::Exit => r,
    }
}

/// The actions of `s`, run in order from `r`, are each enabled at the
/// moment they run.
pub open spec fn seq_enabled(r: Resources, s: Seq<Action>) -> bool
    decreases s.len(),
{
    s.len() == 0 || (action_enabled(r, s.first()) && seq_enabled(apply_action(r, s.first()), s.drop_first()))
}

/// Which handles are alive after the actions of `s` ran in order from `r`.
pub open spec fn apply_actions(r: Resources, s: Seq<Action>) -> Resources
    decreases s.len(),
{
    if s.len() == 0 {
        r
    } else {
        apply_actions(apply_action(r, s.first()), s.drop_first())
    }
}

/// An admissible sequence followed by a sequence admissible from where the
/// first one ends is admissible as a whole.
pub proof fn lemma_seq_enabled_concat(r: Resources, s1: Seq<Action>, s2: Seq<Action>)
    requires
        seq_enabled(r, s1),
        seq_enabled(apply_actions(r, s1), s2),
    ensures
        seq_enabled(r, s1 + s2),
        apply_actions(r, s1 + s2) == apply_actions(apply_actions(r, s1), s2),
    decreases s1.len(),
{
    if s1.len() == 0 {
        assert(s1 + s2 =~= s2);
    } else {
        assert((s1 + s2).first() == s1.first());
        assert((s1 + s2).drop_first() =~= s1.drop_first() + s2);
        lemma_seq_enabled_concat(apply_action(r, s1.first()), s1.drop_first(), s2);
    }
}

/// A single action is admissible exactly when it is enabled.
pub proof fn lemma_seq_enabled_singleton(r: Resources, a: Action)
    ensures
        seq_enabled(r, seq![a]) == action_enabled(r, a),
        apply_actions(r, seq![a]) == apply_action(r, a),
{
    assert(seq![a].drop_first() =~= Seq::<Action>::empty());
    assert(seq![a].first() == a);
    assert(seq_enabled(apply_action(r, a), Seq::<Action>::empty()));
    assert(apply_actions(apply_action(r, a), Seq::<Action>::empty()) == apply_action(r, a));
}

/// Each action of an admissible sequence is enabled in the state reached by
/// running the actions before it: an admissible sequence never uses an
/// absent handle, wherever in the sequence the use stands.
pub proof fn lemma_seq_enabled_at(r: Resources, s: Seq<Action>, i: int)
    requires
        seq_enabled(r, s),
        0 <= i < s.len(),
    ensures
        action_enabled(apply_actions(r, s.take(i)), s[i]),
    decreases i,
{
    if i == 0 {
        assert(s.take(0) =~= Seq::<Action>::empty());
    } else {
        assert(s.take(i).first() == s.first());
        assert(s.take(i).drop_first() =~= s.drop_first().take(i - 1));
        assert(s.drop_first()[i - 1] == s[i]);
        lemma_seq_enabled_at(apply_action(r, s.first()), s.drop_first(), i - 1);
    }
}

} // verus!
