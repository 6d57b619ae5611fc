use bevy::app::App;
use bevy_godot4::BevyApp;

#[test]
fn default_node_has_no_app() {
    let node = BevyApp::default();
    assert!(node.get_app().is_none());
    assert!(!node.runs_frame(false));
    assert!(!node.runs_frame(true));
}

#[test]
fn get_app_mut_is_none_without_app() {
    let mut node = BevyApp::default();
    assert!(node.get_app_mut().is_none());
}

#[test]
fn installed_app_is_read_back() {
    let mut node = BevyApp::default();
    let mut app = App::new();
    app.world_mut().spawn_empty();
    app.world_mut().spawn_empty();
    let count = app.world().entities().len();
    node.install(app);
    assert!(node.get_app().is_some());
    assert_eq!(node.app().world().entities().len(), count);
    assert_eq!(node.get_app().unwrap().world().entities().len(), count);
}

#[test]
fn frame_runs_only_outside_editor_with_app() {
    let mut node = BevyApp::default();
    node.install(App::new());
    assert!(node.runs_frame(false));
    assert!(!node.runs_frame(true));
}

#[test]
fn writes_through_app_mut_are_kept() {
    let mut node = BevyApp::default();
    node.install(App::new());
    let before = node.app().world().entities().len();
    node.app_mut().world_mut().spawn_empty();
    assert_eq!(node.app().world().entities().len(), before + 1);
    node.get_app_mut().unwrap().world_mut().spawn_empty();
    assert_eq!(node.app().world().entities().len(), before + 2);
}

#[test]
fn shut_down_drops_the_app_for_good() {
    let mut node = BevyApp::default();
    node.install(App::new());
    node.shut_down();
    assert!(node.get_app().is_none());
    assert!(!node.runs_frame(false));
    node.shut_down();
    assert!(node.get_app().is_none());
}

#[test]
fn install_replaces_the_previous_app() {
    let mut node = BevyApp::default();
    node.install(App::new());
    let mut second = App::new();
    second.world_mut().spawn_empty();
    let count = second.world().entities().len();
    node.install(second);
    assert_eq!(node.app().world().entities().len(), count);
}
