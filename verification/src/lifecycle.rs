//! The lifecycle state machine of the demo.
//!
//! [`App`] tracks which graphics resources exist and whether the demo has
//! been asked to exit.  [`App::step`] takes one window-system [`Event`] and
//! returns the [`Action`]s the driver must perform, updating the state to
//! match.  The spec functions [`next`] and [`emitted`] are the mathematical
//! transition relation; `step` is proved equal to them, and the lemmas at
//! the end state the lifecycle contract: emitted actions are always
//! admissible, resume creates, suspend and close release before the context
//! (or the loop) goes away, and nothing ever draws without a live context,
//! program and mesh.

use vstd::prelude::*;

use crate::resources::{
    Action, Resources, apply_action, apply_actions, seq_enabled,
    lemma_seq_enabled_concat, lemma_seq_enabled_singleton,
};

verus! {

/// A window-system event, as the driver reports it.
#[derive(Clone, Copy, Debug, PartialEq, Eq, Structural)]
pub enum Event {
    /// The OS granted (or re-granted) a window surface; a graphics context
    /// may now be created.
    Resumed,
    /// The OS is about to revoke the window surface (mobile suspend).
    Suspended,
    /// The window should be redrawn.
    RedrawRequested,
    /// The window surface now has the given size in pixels.
    Resized { width: u32, height: u32 },
    /// The user asked to close the window.
    CloseRequested,
    /// Any event the demo does not react to.
    Other,
}

/// The lifecycle state of the demo: which graphics resources exist, the
/// last reported surface size, and whether the event loop was told to stop.
#[derive(Clone, Copy, Debug, PartialEq, Eq, Structural)]
pub struct App {
    /// A graphics context is currently bound to a window surface.
    pub context_live: bool,
    /// The shader program is linked and not yet deleted.
    pub program_live: bool,
    /// The mesh (vertex buffer and vertex array) exists and is not yet
    /// deleted.
    pub mesh_live: bool,
    /// The state machine has asked the driver to stop the event loop.
    pub exited: bool,
    /// Width in pixels of the last reported surface size.
    pub width: u32,
    /// Height in pixels of the last reported surface size.
    pub height: u32,
}

impl App {
    /// The program and the mesh live inside the context and cannot outlive
    /// it.
    pub open spec fn wf(self) -> bool {
        &&& self.program_live ==> self.context_live
        &&& self.mesh_live ==> self.context_live
    }

    /// Everything [`App::wf`] gives, and in addition: until the demo is
    /// told to exit, the three handles are created and destroyed together,
    /// so a live context always comes with a linked program and an
    /// uploaded mesh.  (After a close request the context outlives the
    /// freed program and mesh until the process ends, which is why the
    /// coupling is conditional.)
    pub open spec fn inv(self) -> bool {
        &&& self.wf()
        &&& !self.exited ==> self.program_live == self.context_live
        &&& !self.exited ==> self.mesh_live == self.context_live
    }

    /// The handles alive in this state, in the driver's terms.
    pub open spec fn resources(self) -> Resources {
        Resources {
            context: self.context_live,
            program: self.program_live,
            mesh: self.mesh_live,
        }
    }

    /// The state before the first event: no window surface yet, so no
    /// context and no resources.
    pub open spec fn initial() -> App {
        App {
            context_live: false,
            program_live: false,
            mesh_live: false,
            exited: false,
            width: 0,
            height: 0,
        }
    }

    /// Start the state machine: nothing exists until the OS grants a
    /// surface and [`Event::Resumed`] arrives.
    pub fn new() -> (app: App)
        ensures
            app == App::initial(),
            app.inv(),
            !app.exited,
    {
        App {
            context_live: false,
            program_live: false,
            mesh_live: false,
            exited: false,
            width: 0,
            height: 0,
        }
    }

    /// Advance the state machine by one window-system event.
    ///
    /// Returns the graphics actions the driver must now perform, in order.
    /// The new state is exactly [`next`] of the old one, the actions are
    /// exactly [`emitted`], and the actions are admissible: run in order
    /// from the handles the old state holds, each finds the handles it
    /// needs and together they leave the handles the new state claims.
    pub fn step(&mut self, event: Event) -> (actions: Vec<Action>)
        requires
            old(self).inv(),
            !old(self).exited,
        ensures
            *final(self) == next(*old(self), event),
            actions@ == emitted(*old(self), event),
            final(self).inv(),
            seq_enabled(old(self).resources(), actions@),
            apply_actions(old(self).resources(), actions@) == final(self).resources(),
    {
        let mut actions: Vec<Action> = Vec::new();
        match event {
            Event::Resumed => {
                if !self.context_live {
                    actions.push(Action::CreateContext);
                    actions.push(Action::CreateProgram);
                    actions.push(Action::CreateMesh);
                    self.context_live = true;
                    self.program_live = true;
                    self.mesh_live = true;
                }
            },
            Event::Suspended => {
                if self.context_live {
                    if self.program_live {
                        actions.push(Action::DeleteProgram);
                    }
                    if self.mesh_live {
                        actions.push(Action::DeleteMesh);
                    }
                    actions.push(Action::DestroyContext);
                    self.context_live = false;
                    self.program_live = false;
                    self.mesh_live = false;
                }
            },
            Event::RedrawRequested => {
                if self.context_live && self.program_live && self.mesh_live {
                    actions.push(Action::Draw);
                }
            },
            Event::Resized { width, height } => {
                if self.context_live {
                    actions.push(Action::SetViewport { width, height });
                }
                self.width = width;
                self.height = height;
            },
            Event::CloseRequested => {
                if self.program_live {
                    actions.push(Action::DeleteProgram);
                }
                if self.mesh_live {
                    actions.push(Action::DeleteMesh);
                }
                actions.push(Action::Exit);
                self.program_live = false;
                self.mesh_live = false;
                self.exited = true;
            },
            Event::Other => {},
        }
        proof {
            assert(actions@ =~= emitted(*old(self), event));
            lemma_step_sound(*old(self), event);
        }
        actions
    }
}

/// Actions that free the shader program and the mesh, in that order,
/// skipping the ones that do not exist.
pub open spec fn release_actions(s: App) -> Seq<Action> {
    (if s.program_live {
        seq![Action::DeleteProgram]
    } else {
        Seq::<Action>::empty()
    }) + (if s.mesh_live {
        seq![Action::DeleteMesh]
    } else {
        Seq::<Action>::empty()
    })
}

/// The state after one event.
///
/// Resume builds the context and everything in it (unless one is already
/// live); suspend frees everything including the context; a resize records
/// the new size; close frees the program and the mesh and stops the loop,
/// leaving the context to die with the process; a redraw changes nothing.
pub open spec fn next(s: App, e: Event) -> App {
    match e {
        Event::Resumed => {
            if !s.context_live {
                App { context_live: true, program_live: true, mesh_live: true, ..s }
            } else {
                s
            }
        },
        Event::Suspended => {
            if s.context_live {
                App { context_live: false, program_live: false, mesh_live: false, ..s }
            } else {
                s
            }
        },
        Event::RedrawRequested => s,
        Event::Resized { width, height } => App { width, height, ..s },
        Event::CloseRequested => App { program_live: false, mesh_live: false, exited: true, ..s },
        Event::Other => s,
    }
}

/// The actions the driver must perform for one event.
///
/// Resume creates context, program and mesh in that order; suspend releases
/// program and mesh before destroying the context; a redraw draws only when
/// every resource is live; a resize moves the viewport only while a context
/// exists; close releases program and mesh and then stops the loop.
pub open spec fn emitted(s: App, e: Event) -> Seq<Action> {
    match e {
        Event::Resumed => {
            if !s.context_live {
                seq![Action::CreateContext, Action::CreateProgram, Action::CreateMesh]
            } else {
                Seq::<Action>::empty()
            }
        },
        Event::Suspended => {
            if s.context_live {
                release_actions(s) + seq![Action::DestroyContext]
            } else {
                Seq::<Action>::empty()
            }
        },
        Event::RedrawRequested => {
            if s.context_live && s.program_live && s.mesh_live {
                seq![Action::Draw]
            } else {
                Seq::<Action>::empty()
            }
        },
        Event::Resized { width, height } => {
            if s.context_live {
                seq![Action::SetViewport { width, height }]
            } else {
                Seq::<Action>::empty()
            }
        },
        Event::CloseRequested => release_actions(s) + seq![Action::Exit],
        Event::Other => Seq::<Action>::empty(),
    }
}

/// Freeing the program and the mesh is admissible in any well-formed state
/// and leaves exactly the context (if it was there).
proof fn lemma_release_sound(s: App)
    requires
        s.wf(),
    ensures
        seq_enabled(s.resources(), release_actions(s)),
        apply_actions(s.resources(), release_actions(s)) == (Resources {
            context: s.context_live,
            program: false,
            mesh: false,
        }),
{
    let r = s.resources();
    if s.program_live && s.mesh_live {
        let r1 = apply_action(r, Action::DeleteProgram);
        lemma_seq_enabled_singleton(r, Action::DeleteProgram);
        lemma_seq_enabled_singleton(r1, Action::DeleteMesh);
        lemma_seq_enabled_concat(r, seq![Action::DeleteProgram], seq![Action::DeleteMesh]);
    } else if s.program_live {
        assert(release_actions(s) =~= seq![Action::DeleteProgram]);
        lemma_seq_enabled_singleton(r, Action::DeleteProgram);
    } else if s.mesh_live {
        assert(release_actions(s) =~= seq![Action::DeleteMesh]);
        lemma_seq_enabled_singleton(r, Action::DeleteMesh);
    } else {
        assert(release_actions(s) =~= Seq::<Action>::empty());
        assert(seq_enabled(r, Seq::<Action>::empty()));
    }
}

/// One step of the state machine is sound: it keeps the state well formed,
/// every action it emits is admissible from the old state, and the actions
/// leave the driver holding exactly the handles the new state claims.
pub proof fn lemma_step_sound(s: App, e: Event)
    requires
        s.wf(),
    ensures
        next(s, e).wf(),
        seq_enabled(s.resources(), emitted(s, e)),
        apply_actions(s.resources(), emitted(s, e)) == next(s, e).resources(),
{
    let r = s.resources();
    match e {
        Event::Resumed => {
            if !s.context_live {
                let r1 = apply_action(r, Action::CreateContext);
                let r2 = apply_action(r1, Action::CreateProgram);
                lemma_seq_enabled_singleton(r1, Action::CreateProgram);
                lemma_seq_enabled_singleton(r2, Action::CreateMesh);
                lemma_seq_enabled_concat(r1, seq![Action::CreateProgram], seq![Action::CreateMesh]);
                assert(seq![Action::CreateProgram] + seq![Action::CreateMesh]
                    =~= seq![Action::CreateProgram, Action::CreateMesh]);
                lemma_seq_enabled_singleton(r, Action::CreateContext);
                lemma_seq_enabled_concat(r, seq![Action::CreateContext],
                    seq![Action::CreateProgram, Action::CreateMesh]);
                assert(seq![Action::CreateContext]
                    + seq![Action::CreateProgram, Action::CreateMesh] =~= emitted(s, e));
            } else {
                assert(seq_enabled(r, Seq::<Action>::empty()));
            }
        },
        Event::Suspended => {
            if s.context_live {
                lemma_release_sound(s);
                let r1 = apply_actions(r, release_actions(s));
                lemma_seq_enabled_singleton(r1, Action::DestroyContext);
                lemma_seq_enabled_concat(r, release_actions(s), seq![Action::DestroyContext]);
            } else {
                assert(seq_enabled(r, Seq::<Action>::empty()));
            }
        },
        Event::RedrawRequested => {
            if s.context_live && s.program_live && s.mesh_live {
                lemma_seq_enabled_singleton(r, Action::Draw);
            } else {
                assert(seq_enabled(r, Seq::<Action>::empty()));
            }
        },
        Event::Resized { width, height } => {
            if s.context_live {
                lemma_seq_enabled_singleton(r, Action::SetViewport { width, height });
            } else {
                assert(seq_enabled(r, Seq::<Action>::empty()));
            }
        },
        Event::CloseRequested => {
            lemma_release_sound(s);
            let r1 = apply_actions(r, release_actions(s));
            lemma_seq_enabled_singleton(r1, Action::Exit);
            lemma_seq_enabled_concat(r, release_actions(s), seq![Action::Exit]);
        },
        Event::Other => {
            assert(seq_enabled(r, Seq::<Action>::empty()));
        },
    }
}

/// No draw while the context is absent or before the program and the mesh
/// exist: a draw action is only ever emitted when all three handles are
/// live (and then only for a redraw request).
pub proof fn lemma_no_blind_draw(s: App, e: Event, i: int)
    requires
        s.wf(),
        0 <= i < emitted(s, e).len(),
        emitted(s, e)[i] is Draw,
    ensures
        e is RedrawRequested,
        s.context_live && s.program_live && s.mesh_live,
{
}

/// The event loop stops exactly on a close request: `Exit` is emitted for
/// a close and for no other event, and it comes last, after the program
/// and the mesh were released.
pub proof fn lemma_exit_only_on_close(s: App, e: Event)
    requires
        s.wf(),
    ensures
        emitted(s, e).contains(Action::Exit) <==> e is CloseRequested,
        e is CloseRequested ==> emitted(s, e).last() == Action::Exit,
{
    if e is CloseRequested {
        let t = emitted(s, e);
        assert(t.last() == Action::Exit);
        assert(t.contains(Action::Exit));
    } else {
        assert(forall|i: int| 0 <= i < emitted(s, e).len() ==> emitted(s, e)[i] != Action::Exit);
    }
}

/// A resume (re)creates everything from scratch: afterwards the context,
/// the program and the mesh are all live, ready to draw.
pub proof fn lemma_resume_creates(s: App)
    requires
        s.inv(),
        !s.exited,
    ensures
        next(s, Event::Resumed).context_live,
        next(s, Event::Resumed).program_live,
        next(s, Event::Resumed).mesh_live,
{
}

/// A suspend leaves nothing behind: the program and the mesh are released
/// before the context, and the context last.
pub proof fn lemma_suspend_releases(s: App)
    requires
        s.wf(),
    ensures
        !next(s, Event::Suspended).context_live,
        !next(s, Event::Suspended).program_live,
        !next(s, Event::Suspended).mesh_live,
        s.context_live ==> emitted(s, Event::Suspended).last() == Action::DestroyContext,
{
}

/// A resize records the new pixel size and, while a context exists, moves
/// the viewport to exactly that size.
pub proof fn lemma_resize_updates_viewport(s: App, width: u32, height: u32)
    requires
        s.wf(),
    ensures
        next(s, Event::Resized { width, height }).width == width,
        next(s, Event::Resized { width, height }).height == height,
        s.context_live ==> emitted(s, Event::Resized { width, height })
            == seq![Action::SetViewport { width, height }],
{
}

/// A close request releases the program and the mesh explicitly and then
/// stops the event loop.
pub proof fn lemma_close_releases(s: App)
    requires
        s.wf(),
    ensures
        next(s, Event::CloseRequested).exited,
        !next(s, Event::CloseRequested).program_live,
        !next(s, Event::CloseRequested).mesh_live,
        emitted(s, Event::CloseRequested).last() == Action::Exit,
{
}

} // verus!
