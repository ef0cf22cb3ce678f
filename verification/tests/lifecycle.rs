use glandroid::lifecycle::{App, Event};
use glandroid::resources::Action;

#[test]
fn startup_creates_context_program_mesh() {
    let mut app = App::new();
    let actions = app.step(Event::Resumed);
    assert_eq!(
        actions,
        vec![Action::CreateContext, Action::CreateProgram, Action::CreateMesh]
    );
    assert!(app.context_live);
    assert!(app.program_live);
    assert!(app.mesh_live);
    assert!(!app.exited);
}

#[test]
fn redraw_before_resume_is_ignored() {
    let mut app = App::new();
    let actions = app.step(Event::RedrawRequested);
    assert_eq!(actions, vec![]);
    assert!(!app.context_live);
}

#[test]
fn redraw_after_resume_draws() {
    let mut app = App::new();
    app.step(Event::Resumed);
    let actions = app.step(Event::RedrawRequested);
    assert_eq!(actions, vec![Action::Draw]);
}

#[test]
fn spurious_resume_is_ignored() {
    let mut app = App::new();
    app.step(Event::Resumed);
    let actions = app.step(Event::Resumed);
    assert_eq!(actions, vec![]);
    assert!(app.context_live);
}

#[test]
fn resize_sets_viewport() {
    let mut app = App::new();
    app.step(Event::Resumed);
    let actions = app.step(Event::Resized { width: 800, height: 600 });
    assert_eq!(actions, vec![Action::SetViewport { width: 800, height: 600 }]);
    assert_eq!(app.width, 800);
    assert_eq!(app.height, 600);
}

#[test]
fn resize_without_context_only_records_size() {
    let mut app = App::new();
    let actions = app.step(Event::Resized { width: 1024, height: 768 });
    assert_eq!(actions, vec![]);
    assert_eq!(app.width, 1024);
    assert_eq!(app.height, 768);
}

#[test]
fn suspend_releases_resources_before_context() {
    let mut app = App::new();
    app.step(Event::Resumed);
    let actions = app.step(Event::Suspended);
    assert_eq!(
        actions,
        vec![Action::DeleteProgram, Action::DeleteMesh, Action::DestroyContext]
    );
    assert!(!app.context_live);
    assert!(!app.program_live);
    assert!(!app.mesh_live);
    assert!(!app.exited);
}

#[test]
fn suspend_before_resume_is_ignored() {
    let mut app = App::new();
    let actions = app.step(Event::Suspended);
    assert_eq!(actions, vec![]);
}

#[test]
fn redraw_while_suspended_is_ignored() {
    let mut app = App::new();
    app.step(Event::Resumed);
    app.step(Event::Suspended);
    let actions = app.step(Event::RedrawRequested);
    assert_eq!(actions, vec![]);
}

#[test]
fn resume_after_suspend_recreates_everything() {
    let mut app = App::new();
    app.step(Event::Resumed);
    app.step(Event::Suspended);
    let actions = app.step(Event::Resumed);
    assert_eq!(
        actions,
        vec![Action::CreateContext, Action::CreateProgram, Action::CreateMesh]
    );
    assert!(app.context_live);
    assert!(app.program_live);
    assert!(app.mesh_live);
}

#[test]
fn close_releases_then_exits() {
    let mut app = App::new();
    app.step(Event::Resumed);
    let actions = app.step(Event::CloseRequested);
    assert_eq!(
        actions,
        vec![Action::DeleteProgram, Action::DeleteMesh, Action::Exit]
    );
    assert!(app.exited);
    assert!(!app.program_live);
    assert!(!app.mesh_live);
    assert!(app.context_live);
}

#[test]
fn close_before_first_resume_only_exits() {
    let mut app = App::new();
    let actions = app.step(Event::CloseRequested);
    assert_eq!(actions, vec![Action::Exit]);
    assert!(app.exited);
}

#[test]
fn other_events_are_ignored() {
    let mut app = App::new();
    app.step(Event::Resumed);
    let before = app;
    let actions = app.step(Event::Other);
    assert_eq!(actions, vec![]);
    assert_eq!(app, before);
}

#[test]
fn full_mobile_session() {
    let mut app = App::new();
    let mut log: Vec<Action> = Vec::new();
    let events = vec![
        Event::Resumed,
        Event::Resized { width: 320, height: 480 },
        Event::RedrawRequested,
        Event::Suspended,
        Event::RedrawRequested,
        Event::Resumed,
        Event::RedrawRequested,
        Event::CloseRequested,
    ];
    for event in events {
        log.extend(app.step(event));
    }
    assert_eq!(
        log,
        vec![
            Action::CreateContext,
            Action::CreateProgram,
            Action::CreateMesh,
            Action::SetViewport { width: 320, height: 480 },
            Action::Draw,
            Action::DeleteProgram,
            Action::DeleteMesh,
            Action::DestroyContext,
            Action::CreateContext,
            Action::CreateProgram,
            Action::CreateMesh,
            Action::Draw,
            Action::DeleteProgram,
            Action::DeleteMesh,
            Action::Exit,
        ]
    );
    assert!(app.exited);
}
