use launcher_shell::actions::{ActionSurface, Handler};
use launcher_shell::errors::StructuredError;
use launcher_shell::navigation::{NavController, NavigationDirection};
use launcher_shell::notify::NotificationService;
use launcher_shell::resolver::{get_object, NamedObject, ObjectKind, UiObject, UiTree};
use launcher_shell::shell::{App, Event, ExternalCall, Host, PreferencesView, Trigger};

fn obj(name: &str, kind: ObjectKind) -> UiObject {
    UiObject {
        name: name.to_string(),
        kind,
    }
}

fn full_tree() -> UiTree {
    UiTree {
        objects: vec![
            obj("window", ObjectKind::Window),
            obj("leaflet", ObjectKind::Leaflet),
            obj("launch_game", ObjectKind::SplitButton),
            obj("launch_game_debug", ObjectKind::Button),
            obj("open_preferences", ObjectKind::Button),
            obj("toast_overlay", ObjectKind::ToastOverlay),
        ],
    }
}

fn tree_without(name: &str) -> UiTree {
    let mut tree = full_tree();
    tree.objects.retain(|o| o.name != name);
    tree
}

fn preferences_view() -> PreferencesView {
    PreferencesView {
        root: NamedObject {
            name: "preferences".to_string(),
            kind: ObjectKind::Container,
        },
        go_back: Trigger {
            object: NamedObject {
                name: "preferences_go_back".to_string(),
                kind: ObjectKind::Button,
            },
            handler: None,
        },
    }
}

fn fresh_shell() -> (App, Host) {
    let mut host = Host {
        attached_window: None,
    };
    let app = App::new(&full_tree(), Ok(preferences_view()), &mut host)
        .expect("a full tree must initialize");
    (app, host)
}

fn failure(message: &str) -> StructuredError {
    StructuredError {
        message: message.to_string(),
    }
}

#[test]
fn resolver_yields_typed_handle() {
    let tree = full_tree();
    let handle = get_object(&tree, "window", ObjectKind::Window).expect("window is present");
    assert_eq!(handle.name, "window");
    assert_eq!(handle.kind, ObjectKind::Window);
}

#[test]
fn resolver_names_missing_object() {
    let tree = full_tree();
    let err = get_object(&tree, "nonexistent", ObjectKind::Button)
        .expect_err("an absent name must not resolve");
    assert_eq!(err.name, "nonexistent");
}

#[test]
fn resolver_rejects_mismatched_kind() {
    let tree = full_tree();
    let err = get_object(&tree, "window", ObjectKind::Button)
        .expect_err("a mismatched kind must not resolve");
    assert_eq!(err.name, "window");
}

#[test]
fn rebinding_replaces_the_handler() {
    let mut surface = ActionSurface::new();
    surface.bind("x", Handler::NavigateBack);
    surface.bind("x", Handler::OpenPreferences);
    assert!(matches!(surface.trigger("x"), Some(Handler::OpenPreferences)));
    assert_eq!(surface.actions.len(), 1);
}

#[test]
fn triggering_an_unbound_name_is_a_no_op() {
    let mut surface = ActionSurface::new();
    surface.bind("x", Handler::NavigateBack);
    assert!(surface.trigger("y").is_none());
}

#[test]
fn back_after_show_returns_home() {
    let mut nav = NavController::new(
        NamedObject {
            name: "leaflet".to_string(),
            kind: ObjectKind::Leaflet,
        },
        "home".to_string(),
    );
    nav.add_page("preferences_page".to_string());
    nav.show(&"preferences_page".to_string())
        .expect("the page is registered");
    assert_eq!(nav.current_page(), "preferences_page");
    nav.navigate(NavigationDirection::Back);
    assert_eq!(nav.current_page(), "home");
}

#[test]
fn back_twice_is_idempotent() {
    let mut nav = NavController::new(
        NamedObject {
            name: "leaflet".to_string(),
            kind: ObjectKind::Leaflet,
        },
        "home".to_string(),
    );
    nav.add_page("preferences_page".to_string());
    nav.show(&"preferences_page".to_string())
        .expect("the page is registered");
    nav.navigate(NavigationDirection::Back);
    assert_eq!(nav.current_page(), "home");
    nav.navigate(NavigationDirection::Back);
    assert_eq!(nav.current_page(), "home");
}

#[test]
fn showing_an_unknown_page_fails_and_changes_nothing() {
    let mut nav = NavController::new(
        NamedObject {
            name: "leaflet".to_string(),
            kind: ObjectKind::Leaflet,
        },
        "home".to_string(),
    );
    let err = nav
        .show(&"nope".to_string())
        .expect_err("an unregistered page must be refused");
    assert_eq!(err.id, "nope");
    assert_eq!(nav.current_page(), "home");
}

#[test]
fn forward_returns_to_the_last_shown_page() {
    let mut nav = NavController::new(
        NamedObject {
            name: "leaflet".to_string(),
            kind: ObjectKind::Leaflet,
        },
        "home".to_string(),
    );
    nav.add_page("preferences_page".to_string());
    nav.show(&"preferences_page".to_string())
        .expect("the page is registered");
    nav.navigate(NavigationDirection::Back);
    nav.navigate(NavigationDirection::Forward);
    assert_eq!(nav.current_page(), "preferences_page");
}

#[test]
fn forward_without_a_secondary_page_stays_home() {
    let mut nav = NavController::new(
        NamedObject {
            name: "leaflet".to_string(),
            kind: ObjectKind::Leaflet,
        },
        "home".to_string(),
    );
    nav.navigate(NavigationDirection::Forward);
    assert_eq!(nav.current_page(), "home");
}

#[test]
fn notify_with_detail_exposes_the_affordance() {
    let mut service = NotificationService::new(NamedObject {
        name: "toast_overlay".to_string(),
        kind: ObjectKind::ToastOverlay,
    });
    service.notify("Failed", Some("boom".to_string()));
    assert_eq!(service.toasts.len(), 1);
    assert_eq!(service.toasts[0].title, "Failed");
    assert!(service.toasts[0].has_detail);
    match service.surface.trigger("see-message") {
        Some(Handler::ShowMessageDialog { text }) => assert_eq!(text, "boom"),
        _ => panic!("the detail handler must be bound"),
    }
}

#[test]
fn notify_without_detail_binds_nothing() {
    let mut service = NotificationService::new(NamedObject {
        name: "toast_overlay".to_string(),
        kind: ObjectKind::ToastOverlay,
    });
    service.notify("Plain", None);
    assert_eq!(service.toasts.len(), 1);
    assert!(!service.toasts[0].has_detail);
    assert!(service.surface.trigger("see-message").is_none());
}

#[test]
fn initialization_builds_the_wired_shell() {
    let (app, host) = fresh_shell();
    assert_eq!(app.window.name, "window");
    assert_eq!(app.leaflet.current_page(), "home");
    assert!(matches!(
        app.launch_game.handler,
        Some(Handler::LaunchGame { debug: false })
    ));
    assert!(app.launch_game_debug.handler.is_none());
    assert!(matches!(
        app.open_preferences.handler,
        Some(Handler::OpenPreferences)
    ));
    assert!(matches!(
        app.preferences_stack.go_back.handler,
        Some(Handler::NavigateBack)
    ));
    assert!(app.toast_overlay.toasts.is_empty());
    let attached = host.attached_window.expect("the window must be attached");
    assert_eq!(attached.name, "window");
}

#[test]
fn any_missing_required_object_aborts_initialization() {
    let required = [
        "window",
        "leaflet",
        "launch_game",
        "launch_game_debug",
        "open_preferences",
        "toast_overlay",
    ];
    for name in required {
        let mut host = Host {
            attached_window: None,
        };
        let err = App::new(&tree_without(name), Ok(preferences_view()), &mut host)
            .err()
            .expect("a missing required object must abort");
        assert_eq!(err.name, name);
        assert!(host.attached_window.is_none());
    }
}

#[test]
fn a_mistyped_required_object_aborts_initialization() {
    let mut tree = tree_without("window");
    tree.objects.insert(0, obj("window", ObjectKind::Button));
    let mut host = Host {
        attached_window: None,
    };
    let err = App::new(&tree, Ok(preferences_view()), &mut host)
        .err()
        .expect("a mistyped required object must abort");
    assert_eq!(err.name, "window");
    assert!(host.attached_window.is_none());
}

#[test]
fn a_preferences_construction_failure_aborts_initialization() {
    let mut host = Host {
        attached_window: None,
    };
    let err = App::new(
        &full_tree(),
        Err(launcher_shell::errors::ResolutionError {
            name: "preferences_go_back".to_string(),
        }),
        &mut host,
    )
    .err()
    .expect("a preferences failure must abort");
    assert_eq!(err.name, "preferences_go_back");
    assert!(host.attached_window.is_none());
}

#[test]
fn game_failure_shows_one_notification_with_its_detail() {
    let (mut app, _host) = fresh_shell();
    let call = app
        .dispatch(Event::PrimaryLaunchClicked)
        .expect("the primary launch must dispatch");
    assert_eq!(call, Some(ExternalCall::RunGame { debug: false }));
    let call = app
        .dispatch(Event::GameFinished(Err(failure("disk full"))))
        .expect("a reported game failure must not error");
    assert_eq!(call, None);
    assert_eq!(app.toast_overlay.toasts.len(), 1);
    assert_eq!(app.toast_overlay.toasts[0].title, "Failed to run game");
    assert!(app.toast_overlay.toasts[0].has_detail);
    let call = app
        .dispatch(Event::SeeMessageClicked)
        .expect("opening the detail dialog must not error");
    assert_eq!(call, None);
    assert_eq!(app.toast_overlay.dialog, Some("disk full".to_string()));
    app.dispatch(Event::DialogAcknowledged)
        .expect("acknowledging must not error");
    assert!(app.toast_overlay.dialog.is_none());
}

#[test]
fn preferences_failure_propagates_and_does_not_navigate() {
    let (mut app, _host) = fresh_shell();
    let call = app
        .dispatch(Event::OpenPreferencesClicked)
        .expect("the preferences trigger must dispatch");
    assert_eq!(call, Some(ExternalCall::UpdatePreferences));
    let err = app
        .dispatch(Event::PreferencesUpdated(Err(failure("updater broke"))))
        .expect_err("the updater failure must propagate");
    assert_eq!(err.message, "updater broke");
    assert_eq!(app.leaflet.current_page(), "home");
}

#[test]
fn open_preferences_and_go_back_round_trip() {
    let (mut app, _host) = fresh_shell();
    let call = app
        .dispatch(Event::OpenPreferencesClicked)
        .expect("the preferences trigger must dispatch");
    assert_eq!(call, Some(ExternalCall::UpdatePreferences));
    let call = app
        .dispatch(Event::PreferencesUpdated(Ok(())))
        .expect("a successful update must show the page");
    assert_eq!(call, None);
    assert_eq!(app.leaflet.current_page(), "preferences_page");
    let call = app
        .dispatch(Event::GoBackClicked)
        .expect("going back must dispatch");
    assert_eq!(call, None);
    assert_eq!(app.leaflet.current_page(), "home");
}

#[test]
fn the_debug_trigger_is_deliberately_unwired() {
    let (mut app, _host) = fresh_shell();
    let call = app
        .dispatch(Event::DebugLaunchClicked)
        .expect("an unwired trigger must be a no-op");
    assert_eq!(call, None);
    assert_eq!(app.leaflet.current_page(), "home");
    assert!(app.toast_overlay.toasts.is_empty());
}

#[test]
fn the_open_dialog_suspends_user_interaction() {
    let (mut app, _host) = fresh_shell();
    app.dispatch(Event::GameFinished(Err(failure("disk full"))))
        .expect("a reported game failure must not error");
    app.dispatch(Event::SeeMessageClicked)
        .expect("opening the detail dialog must not error");
    assert!(app.toast_overlay.dialog.is_some());
    let call = app
        .dispatch(Event::PrimaryLaunchClicked)
        .expect("a blocked click must be a no-op");
    assert_eq!(call, None);
    assert_eq!(app.toast_overlay.toasts.len(), 1);
    app.dispatch(Event::DialogAcknowledged)
        .expect("acknowledging must not error");
    let call = app
        .dispatch(Event::PrimaryLaunchClicked)
        .expect("after acknowledgment the click must work again");
    assert_eq!(call, Some(ExternalCall::RunGame { debug: false }));
}

#[test]
fn only_the_most_recent_detail_is_reachable() {
    let (mut app, _host) = fresh_shell();
    app.toast_error("Failed to run game", failure("first"));
    app.toast_error("Failed to run game", failure("second"));
    assert_eq!(app.toast_overlay.toasts.len(), 2);
    app.dispatch(Event::SeeMessageClicked)
        .expect("opening the detail dialog must not error");
    assert_eq!(app.toast_overlay.dialog, Some("second".to_string()));
}

#[test]
fn successful_game_run_shows_nothing() {
    let (mut app, _host) = fresh_shell();
    let call = app
        .dispatch(Event::GameFinished(Ok(())))
        .expect("a successful run must not error");
    assert_eq!(call, None);
    assert!(app.toast_overlay.toasts.is_empty());
    assert!(app.toast_overlay.dialog.is_none());
}

#[test]
fn open_preferences_page_reports_the_updater_error() {
    let (mut app, _host) = fresh_shell();
    let err = app
        .open_preferences_page(Err(failure("no config")))
        .expect_err("the failure must be propagated, not swallowed");
    assert_eq!(err.message, "no config");
    assert_eq!(app.leaflet.current_page(), "home");
    let ok = app.open_preferences_page(Ok(()));
    assert!(ok.is_ok());
    assert_eq!(app.leaflet.current_page(), "preferences_page");
}
