//! The notification service: transient, dismissible messages over a host
//! surface, with an opt-in "see details" affordance that opens a blocking
//! dialog over the captured failure text.

use vstd::prelude::*;

use crate::actions::ActionSurface;
use crate::actions::Handler;
use crate::resolver::NamedObject;

verus! {

/// The fixed, shared action name under which every "see details" affordance
/// is registered.  Because rebinding replaces, only the most recent
/// notification's detail is reachable through it — a documented single-slot,
/// last-error-wins design.
pub open spec fn see_message_name() -> Seq<char> {
    "see-message"@
}

/// One transient message shown on the surface.
#[derive(Debug)]
pub struct Toast {
    /// The short message the toast displays.
    pub title: String,
    /// Whether the toast exposes the "see details" affordance.
    pub has_detail: bool,
}

/// The notification surface: the overlay object it lives on, the actions
/// bound to it, the messages shown so far, and the state of the blocking
/// detail dialog.
#[derive(Debug)]
pub struct NotificationService {
    /// The handle of the overlay the service draws on.
    pub object: NamedObject,
    /// The replaceable actions bound to the overlay.
    pub surface: ActionSurface,
    /// Every message shown so far, oldest first.
    pub toasts: Vec<Toast>,
    /// The text of the open blocking detail dialog, if one is open.
    pub dialog: Option<String>,
}

/// How one `notify` call changes the service: one more toast carrying the
/// given title, a detail affordance exactly when a detail was given, the
/// "see details" handler rebound over the new detail text, and the dialog
/// untouched.
pub open spec fn notified(
    pre: NotificationService,
    post: NotificationService,
    title: Seq<char>,
    detail: Option<String>,
) -> bool {
    &&& post.object == pre.object
    &&& post.dialog == pre.dialog
    &&& post.toasts@.len() == pre.toasts@.len() + 1
    &&& post.toasts@.last().title@ == title
    &&& post.toasts@.last().has_detail == (detail is Some)
    &&& post.toasts@.drop_last() == pre.toasts@
    &&& match detail {
        Some(text) => post.surface.bindings() == pre.surface.bindings().insert(
            see_message_name(),
            Handler::ShowMessageDialog { text },
        ),
        None => post.surface == pre.surface,
    }
}

impl NotificationService {
    /// A service over `object` that has shown nothing yet.
    pub fn new(object: NamedObject) -> (r: NotificationService)
        ensures
            r.surface.wf(),
            r.object == object,
            r.surface.bindings() == Map::<Seq<char>, Handler>::empty(),
            r.toasts@ == Seq::<Toast>::empty(),
            r.dialog is None,
    {
        let r = NotificationService {
            object,
            surface: ActionSurface::new(),
            toasts: Vec::new(),
            dialog: None,
        };
        proof {
            assert(r.toasts@ =~= Seq::<Toast>::empty());
        }
        r
    }

    /// Shows a dismissible message with `title`.  When `detail` carries a
    /// failure description, the message additionally exposes a "see details"
    /// affordance, and its handler is re-registered under the fixed shared
    /// action name to open the blocking dialog over exactly that text.
    pub fn notify(&mut self, title: &str, detail: Option<String>)
        requires
            old(self).surface.wf(),
        ensures
            final(self).surface.wf(),
            notified(*old(self), *final(self), title@, detail),
    {
        let has_detail = detail.is_some();
        let toast = Toast { title: title.to_owned(), has_detail };
        self.toasts.push(toast);
        match detail {
            Some(text) => {
                self.surface.bind("see-message", Handler::ShowMessageDialog { text });
            },
            None => {},
        }
        proof {
            assert(self.toasts@.drop_last() =~= old(self).toasts@);
        }
    }

    /// Closes the blocking detail dialog, with no effect beyond dismissal.
    pub fn acknowledge(&mut self)
        ensures
            *final(self) == (NotificationService { dialog: None, ..*old(self) }),
    {
        self.dialog = None;
    }
}

} // verus!
