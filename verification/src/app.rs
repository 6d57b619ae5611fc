//! The state the Godot node keeps for the Bevy app it drives.
//!
//! The node holds at most one Bevy `App`.  It has none until it is made ready
//! outside the editor, and it drops the one it has when an update of that app
//! panics; from then on no frame of it runs again until a new app is
//! installed.
use vstd::prelude::*;
use bevy::app::App;

verus! {

#[verifier::external_type_specification]
#[verifier::external_body]
pub struct ExApp(App);

/// The Bevy app driven by the Godot node, if one is running.
pub struct BevyApp {
    app: Option<App>,
}

impl BevyApp {
    /// The app the node holds, if any.
    pub closed spec fn installed(self) -> Option<App> {
        self.app
    }

    /// The state after `app` was installed in `self`.
    pub open spec fn with_app(self, app: App) -> BevyApp {
        Self::holding(Some(app))
    }

    /// The state after the app of `self` was dropped.
    pub open spec fn cleared(self) -> BevyApp {
        Self::holding(None)
    }

    /// The state that holds exactly `app`.
    pub closed spec fn holding(app: Option<App>) -> BevyApp {
        BevyApp { app }
    }

    /// Whether a frame of the node runs an update of the app: never in the
    /// editor, and only while the node holds an app.
    pub open spec fn frame_runs(self, editor_hint: bool) -> bool {
        !editor_hint && self.installed() is Some
    }

    /// The app, or `None` before the node is ready or after the app was
    /// dropped.
    pub fn get_app(&self) -> (r: Option<&App>)
        ensures
            r is Some <==> self.installed() is Some,
            r is Some ==> *r.unwrap() == self.installed().unwrap(),
    {
        self.app.as_ref()
    }

    /// The app, mutably, or `None` before the node is ready or after the app
    /// was dropped.
    pub fn get_app_mut(&mut self) -> (r: Option<&mut App>)
        ensures
            (match old(self).installed() {
                None => r is None && final(self).installed() is None,
                Some(a) => r is Some && *r.unwrap() == a
                    && final(self).installed() == Some(*final(r.unwrap())),
            }),
    {
        self.app.as_mut()
    }

    /// The app; there must be one.
    pub fn app(&self) -> (r: &App)
        requires
            self.installed() is Some,
        ensures
            *r == self.installed().unwrap(),
    {
        self.app.as_ref().unwrap()
    }

    /// The app, mutably; there must be one.
    pub fn app_mut(&mut self) -> (r: &mut App)
        requires
            old(self).installed() is Some,
        ensures
            *r == old(self).installed().unwrap(),
            final(self).installed() == Some(*final(r)),
    {
        self.app.as_mut().unwrap()
    }

    /// Makes `app` the app the node drives, in place of any it held.
    pub fn install(&mut self, app: App)
        ensures
            *final(self) == old(self).with_app(app),
            final(self).installed() == Some(app),
    {
        self.app = Some(app);
    }

    /// Drops the app the node drives, if any.
    pub fn shut_down(&mut self)
        ensures
            *final(self) == old(self).cleared(),
            final(self).installed() is None,
    {
        self.app = None;
    }

    /// Whether a frame of the node runs an update of the app.
    pub fn runs_frame(&self, editor_hint: bool) -> (r: bool)
        ensures
            r == self.frame_runs(editor_hint),
    {
        !editor_hint && self.app.is_some()
    }
}

impl Default for BevyApp {
    fn default() -> (r: Self)
        ensures
            r.installed() is None,
    {
        BevyApp { app: None }
    }
}

/// What a read gives back of a write: after an app is installed, the node
/// holds exactly that app, and a frame outside the editor runs it.
pub proof fn lemma_install_then_read(s: BevyApp, app: App, editor_hint: bool)
    ensures
        s.with_app(app).installed() == Some(app),
        s.with_app(app).frame_runs(editor_hint) == !editor_hint,
{
}

/// Once the app is dropped, the node holds none, no frame runs, and dropping
/// it again changes nothing.
pub proof fn lemma_shut_down_is_final(s: BevyApp, editor_hint: bool)
    ensures
        s.cleared().installed() is None,
        !s.cleared().frame_runs(editor_hint),
        s.cleared().cleared() == s.cleared(),
{
}

/// No frame runs in the editor, whatever the node holds.
pub proof fn lemma_editor_never_runs(s: BevyApp)
    ensures
        !s.frame_runs(true),
{
}

} // verus!
