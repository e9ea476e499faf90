//! The framework plugins the shell attaches, and the build modes that decide
//! which of them are present.

use vstd::prelude::*;

verus! {

/// Whether the shell was built with debug assertions.
#[derive(Clone, Copy, Debug, PartialEq, Eq, Structural)]
pub enum BuildMode {
    Debug,
    Release,
}

/// The least severe kind of record a logging sink lets through.
#[derive(Clone, Copy, Debug, PartialEq, Eq, Structural)]
pub enum LogLevel {
    Off,
    Error,
    Warn,
    Info,
    Debug,
    Trace,
}

/// A capability the shell adds to the framework.
#[derive(Clone, Copy, Debug, PartialEq, Eq, Structural)]
pub enum Plugin {
    /// The HTTP client.
    Http,
    /// A logging sink that lets through records of `level` and above.
    Log { level: LogLevel },
}

/// The plugins attached to the framework's builder, before any window
/// exists: the HTTP client alone, in every build.
pub open spec fn builder_plugin_seq() -> Seq<Plugin> {
    seq![Plugin::Http]
}

/// The plugins attached during setup, once the window is built: a logging
/// sink at `Info` in a debug build, none in a release build.
pub open spec fn setup_plugin_seq(mode: BuildMode) -> Seq<Plugin> {
    if mode is Debug {
        seq![Plugin::Log { level: LogLevel::Info }]
    } else {
        Seq::empty()
    }
}

/// Every plugin of a build of `mode`, in the order of attachment.
pub open spec fn attached_plugin_seq(mode: BuildMode) -> Seq<Plugin> {
    builder_plugin_seq() + setup_plugin_seq(mode)
}

/// The plugins to attach to the framework's builder.
pub fn builder_plugins() -> (plugins: Vec<Plugin>)
    ensures
        plugins@ == builder_plugin_seq(),
{
    vec![Plugin::Http]
}

/// The plugins to attach during setup in a build of `mode`.
pub fn setup_plugins(mode: BuildMode) -> (plugins: Vec<Plugin>)
    ensures
        plugins@ == setup_plugin_seq(mode),
{
    match mode {
        BuildMode::Debug => vec![Plugin::Log { level: LogLevel::Info }],
        BuildMode::Release => Vec::new(),
    }
}

/// The HTTP client is attached in every build mode, and before anything
/// else.
pub proof fn lemma_http_always_attached(mode: BuildMode)
    ensures
        attached_plugin_seq(mode).contains(Plugin::Http),
        attached_plugin_seq(mode)[0] == Plugin::Http,
{
    assert(attached_plugin_seq(mode)[0] == Plugin::Http);
}

/// A logging sink is attached if and only if the build is a debug build, and
/// then it is the one at `Info`.
pub proof fn lemma_logging_iff_debug(mode: BuildMode)
    ensures
        (exists|level: LogLevel| attached_plugin_seq(mode).contains(Plugin::Log { level }))
            <==> mode is Debug,
        forall|level: LogLevel| #[trigger]
            attached_plugin_seq(mode).contains(Plugin::Log { level }) ==> level
                == LogLevel::Info,
{
    let attached = attached_plugin_seq(mode);
    if mode is Debug {
        assert(attached[1] == Plugin::Log { level: LogLevel::Info });
        assert(attached.contains(Plugin::Log { level: LogLevel::Info }));
    }
}

} // verus!
