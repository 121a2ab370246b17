//! The application shell: resolves the required named objects from the
//! declarative description, embeds the preferences page into the navigation
//! controller, wires the trigger controls, and attaches the window to the
//! host application instance.  At runtime it is the single-threaded dispatch
//! step of the event loop: the surrounding application delivers one event at
//! a time, performs the external call the step asks for, and hands the
//! outcome back as the next event.

use vstd::prelude::*;

use crate::actions::Handler;
use crate::errors::ResolutionError;
use crate::errors::StructuredError;
use crate::navigation::NavController;
use crate::navigation::NavigationDirection;
use crate::navigation::navigate_trans;
use crate::navigation::show_trans;
use crate::notify::NotificationService;
use crate::notify::Toast;
use crate::notify::notified;
use crate::notify::see_message_name;
use crate::resolver::NamedObject;
use crate::resolver::ObjectKind;
use crate::resolver::UiTree;
use crate::resolver::get_object;
use crate::resolver::resolves;

verus! {

/// A clickable control together with the single replaceable handler wired
/// to its click, if any.
#[derive(Debug)]
pub struct Trigger {
    /// The resolved handle of the control.
    pub object: NamedObject,
    /// The handler that fires on a click; a disconnected trigger does
    /// nothing.
    pub handler: Option<Handler>,
}

/// The preferences sub-view, built by the preferences collaborator: the
/// container the shell embeds as a page, and the "go back" trigger the
/// shell must wire to navigation.
#[derive(Debug)]
pub struct PreferencesView {
    /// The container embedded into the navigation controller as a page.
    pub root: NamedObject,
    /// The control that navigates back out of the preferences page.
    pub go_back: Trigger,
}

/// The host application instance: an opaque handle the shell attaches its
/// window to exactly once, with no other interaction.
#[derive(Debug)]
pub struct Host {
    /// The window attached to the instance, once a shell was built.
    pub attached_window: Option<NamedObject>,
}

/// One event delivered by the surrounding event loop: a user interaction,
/// or the outcome of an external call a previous step asked for.
#[derive(Debug)]
pub enum Event {
    /// The primary launch trigger was clicked.
    PrimaryLaunchClicked,
    /// The secondary (debug) launch trigger was clicked.
    DebugLaunchClicked,
    /// The open-preferences trigger was clicked.
    OpenPreferencesClicked,
    /// The "go back" trigger of the preferences page was clicked.
    GoBackClicked,
    /// The "see details" affordance of a notification was clicked.
    SeeMessageClicked,
    /// The game runner finished, with this outcome.
    GameFinished(Result<(), StructuredError>),
    /// The preferences updater finished, with this outcome.
    PreferencesUpdated(Result<(), StructuredError>),
    /// The single acknowledgment control of the blocking dialog was clicked.
    DialogAcknowledged,
}

/// An external call a dispatch step asks the surrounding application to
/// perform; its outcome comes back as the matching event.
#[derive(Clone, Copy, Debug, PartialEq, Eq, Structural)]
pub enum ExternalCall {
    /// Run the game, in debug mode or not.
    RunGame {
        /// Whether to run in debug mode.
        debug: bool,
    },
    /// Refresh the preferences content before it is shown.
    UpdatePreferences,
}

/// The identifier the home page is registered under.
pub open spec fn home_page_name() -> Seq<char> {
    "home"@
}

/// The identifier the preferences page is registered under.
pub open spec fn preferences_page_name() -> Seq<char> {
    "preferences_page"@
}

/// The required object names of the declarative description, each with the
/// capability the shell expects of it, in resolution order.
pub open spec fn required_objects() -> Seq<(Seq<char>, ObjectKind)> {
    seq![
        ("window"@, ObjectKind::Window),
        ("leaflet"@, ObjectKind::Leaflet),
        ("launch_game"@, ObjectKind::SplitButton),
        ("launch_game_debug"@, ObjectKind::Button),
        ("open_preferences"@, ObjectKind::Button),
        ("toast_overlay"@, ObjectKind::ToastOverlay),
    ]
}

/// Whether every required object resolves in `tree` with its expected
/// capability.
pub open spec fn all_required_resolve(tree: UiTree) -> bool {
    forall|i: int|
        0 <= i < required_objects().len() ==> #[trigger] resolves(
            tree,
            required_objects()[i].0,
            required_objects()[i].1,
        )
}

/// The root composed object: every resolved handle, the navigation
/// controller, the notification service, and the embedded preferences view.
/// All fields are valid after construction, or construction fails
/// atomically: a partially built shell is never observable.
#[derive(Debug)]
pub struct App {
    /// The resolved top-level window.
    pub window: NamedObject,
    /// The navigation controller over the resolved two-panel container.
    pub leaflet: NavController,
    /// The primary launch trigger.
    pub launch_game: Trigger,
    /// The secondary (debug) launch trigger, deliberately left unwired.
    pub launch_game_debug: Trigger,
    /// The open-preferences trigger.
    pub open_preferences: Trigger,
    /// The notification service over the resolved overlay.
    pub toast_overlay: NotificationService,
    /// The embedded preferences sub-view.
    pub preferences_stack: PreferencesView,
}

/// The state a correctly built shell keeps: a well-formed navigation
/// controller that registered the preferences page, and a well-formed
/// action surface.
impl App {
    /// The shell's invariant, established by construction and preserved by
    /// every step.
    pub open spec fn wf(self) -> bool {
        &&& self.leaflet.wf()
        &&& self.toast_overlay.surface.wf()
        &&& self.leaflet@.pages.contains(preferences_page_name())
    }

    /// The handler currently reachable through the fixed "see details"
    /// action name, if any.
    pub open spec fn see_message_handler(self) -> Option<Handler> {
        if self.toast_overlay.surface.bindings().dom().contains(see_message_name()) {
            Some(self.toast_overlay.surface.bindings()[see_message_name()])
        } else {
            None
        }
    }
}

/// What firing `handler` (or nothing) does to the shell in one step:
/// navigation moves back, a message dialog opens over the carried text, and
/// the launch and preferences commands ask the surrounding application for
/// the matching external call; everything else stays as it was.
pub open spec fn handler_step(
    pre: App,
    post: App,
    r: Result<Option<ExternalCall>, StructuredError>,
    handler: Option<Handler>,
) -> bool {
    match handler {
        None => post == pre && r == Ok::<Option<ExternalCall>, StructuredError>(None),
        Some(Handler::NavigateBack) => {
            &&& post == (App { leaflet: post.leaflet, ..pre })
            &&& post.leaflet@ == navigate_trans(pre.leaflet@, NavigationDirection::Back)
            &&& post.leaflet.object == pre.leaflet.object
            &&& r == Ok::<Option<ExternalCall>, StructuredError>(None)
        },
        Some(Handler::ShowMessageDialog { text }) => {
            &&& post == (App {
                toast_overlay: (NotificationService { dialog: Some(text), ..pre.toast_overlay }),
                ..pre
            })
            &&& r == Ok::<Option<ExternalCall>, StructuredError>(None)
        },
        Some(Handler::LaunchGame { debug }) => {
            &&& post == pre
            &&& r == Ok::<Option<ExternalCall>, StructuredError>(
                Some(ExternalCall::RunGame { debug }),
            )
        },
        Some(Handler::OpenPreferences) => {
            &&& post == pre
            &&& r == Ok::<Option<ExternalCall>, StructuredError>(
                Some(ExternalCall::UpdatePreferences),
            )
        },
    }
}

/// Whether `event` is a direct user interaction, as opposed to the reported
/// outcome of an external call.
pub open spec fn is_user_event(event: Event) -> bool {
    ||| event is PrimaryLaunchClicked
    ||| event is DebugLaunchClicked
    ||| event is OpenPreferencesClicked
    ||| event is GoBackClicked
    ||| event is SeeMessageClicked
}

/// While the blocking detail dialog is open, user interaction with the
/// window is suspended: a user event delivered then is not acted on.
pub open spec fn blocked(s: App, event: Event) -> bool {
    s.toast_overlay.dialog is Some && is_user_event(event)
}

impl App {
    /// Builds the shell over the parsed declarative description: resolves
    /// every required object, embeds the preferences sub-view as a page,
    /// wires the triggers, and attaches the window to the host instance.
    /// Any resolution failure, and any failure of the preferences
    /// collaborator's own construction, aborts the whole initialization
    /// atomically: the error names the object at fault, in resolution
    /// order, and nothing is attached to the host.
    pub fn new(
        tree: &UiTree,
        preferences: Result<PreferencesView, ResolutionError>,
        host: &mut Host,
    ) -> (r: Result<App, ResolutionError>)
        requires
            old(host).attached_window is None,
        ensures
            r is Ok <==> (all_required_resolve(*tree) && preferences is Ok),
            r is Err ==> *final(host) == *old(host),
            !resolves(*tree, "window"@, ObjectKind::Window) ==> (r matches Err(e) && e.name@
                == "window"@),
            resolves(*tree, "window"@, ObjectKind::Window) && !resolves(
                *tree,
                "leaflet"@,
                ObjectKind::Leaflet,
            ) ==> (r matches Err(e) && e.name@ == "leaflet"@),
            resolves(*tree, "window"@, ObjectKind::Window) && resolves(
                *tree,
                "leaflet"@,
                ObjectKind::Leaflet,
            ) && !resolves(*tree, "launch_game"@, ObjectKind::SplitButton) ==> (r matches Err(e)
                && e.name@ == "launch_game"@),
            resolves(*tree, "window"@, ObjectKind::Window) && resolves(
                *tree,
                "leaflet"@,
                ObjectKind::Leaflet,
            ) && resolves(*tree, "launch_game"@, ObjectKind::SplitButton) && !resolves(
                *tree,
                "launch_game_debug"@,
                ObjectKind::Button,
            ) ==> (r matches Err(e) && e.name@ == "launch_game_debug"@),
            resolves(*tree, "window"@, ObjectKind::Window) && resolves(
                *tree,
                "leaflet"@,
                ObjectKind::Leaflet,
            ) && resolves(*tree, "launch_game"@, ObjectKind::SplitButton) && resolves(
                *tree,
                "launch_game_debug"@,
                ObjectKind::Button,
            ) && !resolves(*tree, "open_preferences"@, ObjectKind::Button) ==> (r matches Err(e)
                && e.name@ == "open_preferences"@),
            resolves(*tree, "window"@, ObjectKind::Window) && resolves(
                *tree,
                "leaflet"@,
                ObjectKind::Leaflet,
            ) && resolves(*tree, "launch_game"@, ObjectKind::SplitButton) && resolves(
                *tree,
                "launch_game_debug"@,
                ObjectKind::Button,
            ) && resolves(*tree, "open_preferences"@, ObjectKind::Button) && !resolves(
                *tree,
                "toast_overlay"@,
                ObjectKind::ToastOverlay,
            ) ==> (r matches Err(e) && e.name@ == "toast_overlay"@),
            all_required_resolve(*tree) && preferences is Err ==> (r matches Err(e) && (preferences
                matches Err(pe) && e == pe)),
            r matches Ok(app) ==> app.wf() && (preferences matches Ok(p) && initialized(app, p))
                && final(host).attached_window == Some(app.window),
    {
        let window = match get_object(tree, "window", ObjectKind::Window) {
            Ok(o) => o,
            Err(e) => {
                proof {
                    lemma_missing_required_aborts(*tree, 0);
                }
                return Err(e);
            },
        };
        let leaflet_object = match get_object(tree, "leaflet", ObjectKind::Leaflet) {
            Ok(o) => o,
            Err(e) => {
                proof {
                    lemma_missing_required_aborts(*tree, 1);
                }
                return Err(e);
            },
        };
        let launch_game_object = match get_object(tree, "launch_game", ObjectKind::SplitButton) {
            Ok(o) => o,
            Err(e) => {
                proof {
                    lemma_missing_required_aborts(*tree, 2);
                }
                return Err(e);
            },
        };
        let launch_game_debug_object = match get_object(
            tree,
            "launch_game_debug",
            ObjectKind::Button,
        ) {
            Ok(o) => o,
            Err(e) => {
                proof {
                    lemma_missing_required_aborts(*tree, 3);
                }
                return Err(e);
            },
        };
        let open_preferences_object = match get_object(
            tree,
            "open_preferences",
            ObjectKind::Button,
        ) {
            Ok(o) => o,
            Err(e) => {
                proof {
                    lemma_missing_required_aborts(*tree, 4);
                }
                return Err(e);
            },
        };
        let toast_overlay_object = match get_object(tree, "toast_overlay", ObjectKind::ToastOverlay) {
            Ok(o) => o,
            Err(e) => {
                proof {
                    lemma_missing_required_aborts(*tree, 5);
                }
                return Err(e);
            },
        };
        proof {
            assert_all_required_resolve(*tree);
        }
        let mut preferences_stack = match preferences {
            Ok(p) => p,
            Err(e) => {
                return Err(e);
            },
        };

        let mut leaflet = NavController::new(leaflet_object, "home".to_owned());
        proof {
            lemma_distinct_page_names();
            assert(!leaflet@.pages.contains(preferences_page_name())) by {
                if leaflet@.pages.contains(preferences_page_name()) {
                    let k = choose|k: int|
                        0 <= k < leaflet@.pages.len() && leaflet@.pages[k]
                            == preferences_page_name();
                }
            }
        }
        leaflet.add_page("preferences_page".to_owned());

        preferences_stack.go_back.handler = Some(Handler::NavigateBack);
        let launch_game = Trigger {
            object: launch_game_object,
            handler: Some(Handler::LaunchGame { debug: false }),
        };
        let launch_game_debug = Trigger { object: launch_game_debug_object, handler: None };
        let open_preferences = Trigger {
            object: open_preferences_object,
            handler: Some(Handler::OpenPreferences),
        };
        let toast_overlay = NotificationService::new(toast_overlay_object);

        let app = App {
            window,
            leaflet,
            launch_game,
            launch_game_debug,
            open_preferences,
            toast_overlay,
            preferences_stack,
        };
        host.attached_window = Some(app.window.duplicate());
        proof {
            assert(app.leaflet@.pages =~= seq![home_page_name(), preferences_page_name()]);
            assert(app.leaflet@.pages[1] == preferences_page_name());
            assert(app.leaflet@.pages.contains(preferences_page_name()));
        }
        Ok(app)
    }
}

/// The full state a fresh shell is in: every handle resolved under its
/// required name, the navigation controller on the home page with the
/// preferences page registered, the launch and preferences triggers wired,
/// the debug trigger deliberately unwired, nothing notified, no binding on
/// the overlay, no dialog open, and the preferences view embedded with its
/// "go back" trigger wired to back-navigation.
pub open spec fn initialized(app: App, prefs: PreferencesView) -> bool {
    &&& app.window.name@ == "window"@ && app.window.kind == ObjectKind::Window
    &&& app.leaflet.object.name@ == "leaflet"@ && app.leaflet.object.kind == ObjectKind::Leaflet
    &&& app.leaflet@.pages == seq![home_page_name(), preferences_page_name()]
    &&& app.leaflet@.current == home_page_name()
    &&& app.leaflet@.secondary is None
    &&& app.launch_game.object.name@ == "launch_game"@ && app.launch_game.object.kind
        == ObjectKind::SplitButton
    &&& app.launch_game.handler == Some(Handler::LaunchGame { debug: false })
    &&& app.launch_game_debug.object.name@ == "launch_game_debug"@
        && app.launch_game_debug.object.kind == ObjectKind::Button
    &&& app.launch_game_debug.handler is None
    &&& app.open_preferences.object.name@ == "open_preferences"@ && app.open_preferences.object.kind
        == ObjectKind::Button
    &&& app.open_preferences.handler == Some(Handler::OpenPreferences)
    &&& app.toast_overlay.object.name@ == "toast_overlay"@ && app.toast_overlay.object.kind
        == ObjectKind::ToastOverlay
    &&& app.toast_overlay.surface.bindings() == Map::<Seq<char>, Handler>::empty()
    &&& app.toast_overlay.toasts@ == Seq::<Toast>::empty()
    &&& app.toast_overlay.dialog is None
    &&& app.preferences_stack.root == prefs.root
    &&& app.preferences_stack.go_back.object == prefs.go_back.object
    &&& app.preferences_stack.go_back.handler == Some(Handler::NavigateBack)
}

/// A required object that does not resolve — absent from the description,
/// or present without the expected capability — falsifies the whole
/// resolution condition, so `App::new` returns the construction error and
/// attaches nothing to the host.
pub proof fn lemma_missing_required_aborts(tree: UiTree, i: int)
    requires
        0 <= i < required_objects().len(),
        !resolves(tree, required_objects()[i].0, required_objects()[i].1),
    ensures
        !all_required_resolve(tree),
{
}

/// A name that is altogether absent from the description resolves under no
/// expected capability at all.
pub proof fn lemma_absent_never_resolves(tree: UiTree, name: Seq<char>, kind: ObjectKind)
    requires
        crate::resolver::lookup_object(tree.objects@, name) is None,
    ensures
        !resolves(tree, name, kind),
{
}

/// The home and preferences page identifiers differ.
proof fn lemma_distinct_page_names()
    ensures
        home_page_name() != preferences_page_name(),
{
    reveal_strlit("home");
    reveal_strlit("preferences_page");
    assert(home_page_name().len() == 4);
    assert(preferences_page_name().len() == 16);
}

/// Each successfully resolved required object, taken together, gives the
/// whole resolution condition.
proof fn assert_all_required_resolve(tree: UiTree)
    requires
        resolves(tree, "window"@, ObjectKind::Window),
        resolves(tree, "leaflet"@, ObjectKind::Leaflet),
        resolves(tree, "launch_game"@, ObjectKind::SplitButton),
        resolves(tree, "launch_game_debug"@, ObjectKind::Button),
        resolves(tree, "open_preferences"@, ObjectKind::Button),
        resolves(tree, "toast_overlay"@, ObjectKind::ToastOverlay),
    ensures
        all_required_resolve(tree),
{
    assert forall|i: int| 0 <= i < required_objects().len() implies #[trigger] resolves(
        tree,
        required_objects()[i].0,
        required_objects()[i].1,
    ) by {
        if i == 0 {
            assert(required_objects()[0] == ("window"@, ObjectKind::Window));
        } else if i == 1 {
            assert(required_objects()[1] == ("leaflet"@, ObjectKind::Leaflet));
        } else if i == 2 {
            assert(required_objects()[2] == ("launch_game"@, ObjectKind::SplitButton));
        } else if i == 3 {
            assert(required_objects()[3] == ("launch_game_debug"@, ObjectKind::Button));
        } else if i == 4 {
            assert(required_objects()[4] == ("open_preferences"@, ObjectKind::Button));
        } else {
            assert(required_objects()[5] == ("toast_overlay"@, ObjectKind::ToastOverlay));
        }
    }
}

impl App {
    /// Shows a dismissible toast carrying `toast` as its title and a "see
    /// details" affordance over the collaborator failure `err`: the fixed
    /// shared action is rebound to open the blocking dialog over exactly
    /// that failure's text.
    pub fn toast_error(&mut self, toast: &str, err: StructuredError)
        requires
            old(self).wf(),
        ensures
            final(self).wf(),
            *final(self) == (App { toast_overlay: final(self).toast_overlay, ..*old(self) }),
            notified(
                old(self).toast_overlay,
                final(self).toast_overlay,
                toast@,
                Some(err.message),
            ),
    {
        self.toast_overlay.notify(toast, Some(err.message));
    }

    /// Reacts to the outcome of the preferences updater: on success the
    /// preferences page is shown; a failure is propagated unchanged and
    /// does not navigate — a stale page is never shown silently.
    pub fn open_preferences_page(&mut self, update_result: Result<(), StructuredError>) -> (r:
        Result<(), StructuredError>)
        requires
            old(self).wf(),
        ensures
            final(self).wf(),
            update_result matches Err(e) ==> r == Err::<(), StructuredError>(e) && *final(self)
                == *old(self),
            update_result is Ok ==> r is Ok && (*final(self) == (App {
                leaflet: final(self).leaflet,
                ..*old(self)
            })) && final(self).leaflet@ == show_trans(old(self).leaflet@, preferences_page_name())
                && final(self).leaflet.object == old(self).leaflet.object,
    {
        match update_result {
            Err(e) => Err(e),
            Ok(()) => {
                let page: String = "preferences_page".to_owned();
                let _ = self.leaflet.show(&page);
                Ok(())
            },
        }
    }

    /// Fires `handler` as one step of the event loop.
    fn run_handler(&mut self, handler: Handler) -> (r: Result<
        Option<ExternalCall>,
        StructuredError,
    >)
        requires
            old(self).wf(),
        ensures
            final(self).wf(),
            handler_step(*old(self), *final(self), r, Some(handler)),
    {
        match handler {
            Handler::NavigateBack => {
                self.leaflet.navigate(NavigationDirection::Back);
                Ok(None)
            },
            Handler::ShowMessageDialog { text } => {
                self.toast_overlay.dialog = Some(text);
                Ok(None)
            },
            Handler::LaunchGame { debug } => Ok(Some(ExternalCall::RunGame { debug })),
            Handler::OpenPreferences => Ok(Some(ExternalCall::UpdatePreferences)),
        }
    }

    /// One step of the single-threaded event loop.  A user interaction
    /// fires the handler wired to the control it names (an unwired control
    /// does nothing); a reported game failure becomes a notification; a
    /// reported preferences outcome either shows the preferences page or is
    /// propagated; acknowledging the dialog closes it.  While the blocking
    /// dialog is open, user interactions are suspended.
    pub fn dispatch(&mut self, event: Event) -> (r: Result<Option<ExternalCall>, StructuredError>)
        requires
            old(self).wf(),
        ensures
            final(self).wf(),
            blocked(*old(self), event) ==> *final(self) == *old(self) && r == Ok::<
                Option<ExternalCall>,
                StructuredError,
            >(None),
            !blocked(*old(self), event) ==> match event {
                Event::PrimaryLaunchClicked => handler_step(
                    *old(self),
                    *final(self),
                    r,
                    old(self).launch_game.handler,
                ),
                Event::DebugLaunchClicked => handler_step(
                    *old(self),
                    *final(self),
                    r,
                    old(self).launch_game_debug.handler,
                ),
                Event::OpenPreferencesClicked => handler_step(
                    *old(self),
                    *final(self),
                    r,
                    old(self).open_preferences.handler,
                ),
                Event::GoBackClicked => handler_step(
                    *old(self),
                    *final(self),
                    r,
                    old(self).preferences_stack.go_back.handler,
                ),
                Event::SeeMessageClicked => handler_step(
                    *old(self),
                    *final(self),
                    r,
                    old(self).see_message_handler(),
                ),
                Event::GameFinished(outcome) => match outcome {
                    Ok(_) => *final(self) == *old(self) && r == Ok::<
                        Option<ExternalCall>,
                        StructuredError,
                    >(None),
                    Err(e) => {
                        &&& *final(self) == (App {
                            toast_overlay: final(self).toast_overlay,
                            ..*old(self)
                        })
                        &&& notified(
                            old(self).toast_overlay,
                            final(self).toast_overlay,
                            "Failed to run game"@,
                            Some(e.message),
                        )
                        &&& r == Ok::<Option<ExternalCall>, StructuredError>(None)
                    },
                },
                Event::PreferencesUpdated(outcome) => match outcome {
                    Ok(_) => {
                        &&& *final(self) == (App {
                            leaflet: final(self).leaflet,
                            ..*old(self)
                        })
                        &&& final(self).leaflet@ == show_trans(
                            old(self).leaflet@,
                            preferences_page_name(),
                        )
                        &&& final(self).leaflet.object == old(self).leaflet.object
                        &&& r == Ok::<Option<ExternalCall>, StructuredError>(None)
                    },
                    Err(e) => *final(self) == *old(self) && r == Err::<
                        Option<ExternalCall>,
                        StructuredError,
                    >(e),
                },
                Event::DialogAcknowledged => *final(self) == (App {
                    toast_overlay: (NotificationService {
                        dialog: None,
                        ..old(self).toast_overlay
                    }),
                    ..*old(self)
                }) && r == Ok::<Option<ExternalCall>, StructuredError>(None),
            },
    {
        if self.toast_overlay.dialog.is_some() && is_user(&event) {
            return Ok(None);
        }
        match event {
            Event::PrimaryLaunchClicked => {
                let fired = match &self.launch_game.handler {
                    Some(h) => Some(h.duplicate()),
                    None => None,
                };
                match fired {
                    Some(h) => self.run_handler(h),
                    None => Ok(None),
                }
            },
            Event::DebugLaunchClicked => {
                let fired = match &self.launch_game_debug.handler {
                    Some(h) => Some(h.duplicate()),
                    None => None,
                };
                match fired {
                    Some(h) => self.run_handler(h),
                    None => Ok(None),
                }
            },
            Event::OpenPreferencesClicked => {
                let fired = match &self.open_preferences.handler {
                    Some(h) => Some(h.duplicate()),
                    None => None,
                };
                match fired {
                    Some(h) => self.run_handler(h),
                    None => Ok(None),
                }
            },
            Event::GoBackClicked => {
                let fired = match &self.preferences_stack.go_back.handler {
                    Some(h) => Some(h.duplicate()),
                    None => None,
                };
                match fired {
                    Some(h) => self.run_handler(h),
                    None => Ok(None),
                }
            },
            Event::SeeMessageClicked => {
                let fired = match self.toast_overlay.surface.trigger("see-message") {
                    Some(h) => Some(h.duplicate()),
                    None => None,
                };
                match fired {
                    Some(h) => self.run_handler(h),
                    None => Ok(None),
                }
            },
            Event::GameFinished(outcome) => match outcome {
                Ok(_) => Ok(None),
                Err(e) => {
                    self.toast_error("Failed to run game", e);
                    Ok(None)
                },
            },
            Event::PreferencesUpdated(outcome) => match self.open_preferences_page(outcome) {
                Ok(_) => Ok(None),
                Err(e) => Err(e),
            },
            Event::DialogAcknowledged => {
                self.toast_overlay.acknowledge();
                Ok(None)
            },
        }
    }
}

/// Whether `event` is a direct user interaction.
fn is_user(event: &Event) -> (b: bool)
    ensures
        b == is_user_event(*event),
{
    match event {
        Event::PrimaryLaunchClicked => true,
        Event::DebugLaunchClicked => true,
        Event::OpenPreferencesClicked => true,
        Event::GoBackClicked => true,
        Event::SeeMessageClicked => true,
        Event::GameFinished(_) => false,
        Event::PreferencesUpdated(_) => false,
        Event::DialogAcknowledged => false,
    }
}

} // verus!
