//! The order of startup and the answer to each failure on the way.
//!
//! Startup has three stages. First the builder plugins are attached to the
//! framework's builder. Then setup runs, once: it builds the window and
//! attaches the setup plugins. Last, the framework's event loop takes over
//! and keeps control until the process exits.

use vstd::prelude::*;
use crate::plugins::{builder_plugin_seq, builder_plugins, setup_plugin_seq, setup_plugins};
use crate::plugins::{BuildMode, Plugin};
use crate::window::{window_config, Platform, WindowConfig};

verus! {

/// What startup does, stage by stage.
#[derive(Debug)]
pub struct StartupPlan {
    /// Plugins attached to the builder before setup, in order.
    pub builder_plugins: Vec<Plugin>,
    /// The window that setup builds first.
    pub window: WindowConfig,
    /// Plugins attached by setup once the window is built, in order.
    pub setup_plugins: Vec<Plugin>,
}

/// A place where startup can fail.
#[derive(Clone, Copy, Debug, PartialEq, Eq, Structural)]
pub enum FailurePoint {
    /// The window could not be built.
    WindowBuild,
    /// A setup plugin could not be attached.
    SetupPluginAttach,
    /// The event loop could not be started.
    EventLoop,
}

/// The answer to a failure. Both end the process: nothing is retried and
/// there is no fallback.
#[derive(Clone, Copy, Debug, PartialEq, Eq, Structural)]
pub enum FailureResponse {
    /// Stop the process on the spot.
    Abort,
    /// Hand the error back from setup; the framework then fails to start the
    /// event loop, which is answered in its turn.
    FailSetup,
}

impl StartupPlan {
    /// `self` is the plan of a build of `mode` for `platform`.
    pub open spec fn is_for(self, platform: Platform, mode: BuildMode) -> bool {
        &&& self.builder_plugins@ == builder_plugin_seq()
        &&& self.window.is_for(platform)
        &&& self.setup_plugins@ == setup_plugin_seq(mode)
    }
}

/// The startup plan of a build of `mode` for `platform`.
pub fn startup_plan(platform: Platform, mode: BuildMode) -> (plan: StartupPlan)
    ensures
        plan.is_for(platform, mode),
        plan.window.well_formed(),
{
    StartupPlan {
        builder_plugins: builder_plugins(),
        window: window_config(platform),
        setup_plugins: setup_plugins(mode),
    }
}

/// The answer to a failure at `point`: setup hands back the error of a plugin
/// it could not attach, and every other failure stops the process at once.
pub fn failure_response(point: FailurePoint) -> (response: FailureResponse)
    ensures
        response is FailSetup <==> point is SetupPluginAttach,
        response is Abort <==> point is WindowBuild || point is EventLoop,
{
    match point {
        FailurePoint::SetupPluginAttach => FailureResponse::FailSetup,
        FailurePoint::WindowBuild => FailureResponse::Abort,
        FailurePoint::EventLoop => FailureResponse::Abort,
    }
}

/// The diagnostic with which the process stops when the event loop fails to
/// start.
pub fn event_loop_failure_message() -> (message: &'static str)
    ensures
        message@ == "error while running tauri application"@,
{
    "error while running tauri application"
}

} // verus!
