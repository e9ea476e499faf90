use titlebar_shell::plugins::{builder_plugins, setup_plugins, BuildMode, LogLevel, Plugin};

fn attached(mode: BuildMode) -> Vec<Plugin> {
    let mut all = builder_plugins();
    all.extend(setup_plugins(mode));
    all
}

fn is_log(plugin: &Plugin) -> bool {
    matches!(plugin, Plugin::Log { .. })
}

#[test]
fn builder_gets_the_http_client_alone() {
    assert_eq!(builder_plugins(), vec![Plugin::Http]);
}

#[test]
fn debug_setup_attaches_logging_at_info() {
    assert_eq!(setup_plugins(BuildMode::Debug), vec![Plugin::Log { level: LogLevel::Info }]);
}

#[test]
fn release_setup_attaches_nothing() {
    assert_eq!(setup_plugins(BuildMode::Release), Vec::new());
}

#[test]
fn http_is_attached_in_every_build_mode_and_first() {
    for mode in [BuildMode::Debug, BuildMode::Release] {
        let all = attached(mode);
        assert!(all.contains(&Plugin::Http));
        assert_eq!(all[0], Plugin::Http);
    }
}

#[test]
fn logging_is_attached_exactly_in_debug_builds() {
    assert!(attached(BuildMode::Debug).iter().any(is_log));
    assert!(!attached(BuildMode::Release).iter().any(is_log));
}

#[test]
fn debug_build_attaches_two_plugins_in_order() {
    assert_eq!(
        attached(BuildMode::Debug),
        vec![Plugin::Http, Plugin::Log { level: LogLevel::Info }]
    );
}
