use codex_ffi::config::CodexHome;
use codex_ffi::config::FfiConfig;
use codex_ffi::config::SelfExe;
use codex_ffi::config::exec_server_paths;
use codex_ffi::config::ExecServerPaths;
use codex_ffi::config::SessionSource;

fn named_config() -> FfiConfig {
    let mut config = FfiConfig::default();
    config.codex_home = Some("/tmp/codex-home".to_string());
    config.config_toml = Some("model = \"o3\"".to_string());
    config.client_name = Some("codex_ffi_test".to_string());
    config.client_title = Some("Test".to_string());
    config.client_version = Some("1.2.3".to_string());
    config.codex_self_exe = Some("/opt/codex/bin/codex".to_string());
    config.codex_linux_sandbox_exe = Some("/opt/codex/bin/sandbox".to_string());
    config.experimental_api = Some(false);
    config.mcp_server_openai_form_elicitation = Some(true);
    config.opt_out_notification_methods = Some(vec!["thread/started".to_string()]);
    config.channel_capacity = Some(16);
    config
}

#[test]
fn client_name_defaults_to_codex_ffi() {
    assert_eq!(FfiConfig::default().client_name(), "codex_ffi");
}

#[test]
fn client_name_uses_configured_value() {
    assert_eq!(named_config().client_name(), "codex_ffi_test");
}

#[test]
fn client_version_defaults_to_zero() {
    assert_eq!(FfiConfig::default().client_version(), "0.0.0");
}

#[test]
fn client_version_uses_configured_value() {
    assert_eq!(named_config().client_version(), "1.2.3");
}

#[test]
fn flags_and_capacity_defaults() {
    let config = FfiConfig::default();
    assert!(config.experimental_api());
    assert!(!config.mcp_server_openai_form_elicitation());
    assert_eq!(config.channel_capacity(), 1024);
}

#[test]
fn flags_and_capacity_configured() {
    let config = named_config();
    assert!(!config.experimental_api());
    assert!(config.mcp_server_openai_form_elicitation());
    assert_eq!(config.channel_capacity(), 16);
}

#[test]
fn codex_home_configured_or_discovered() {
    assert_eq!(
        named_config().codex_home(),
        CodexHome::Configured("/tmp/codex-home".to_string())
    );
    assert_eq!(FfiConfig::default().codex_home(), CodexHome::Discover);
}

#[test]
fn self_exe_prefers_configured_path() {
    assert_eq!(
        named_config().self_exe(),
        SelfExe::Configured("/opt/codex/bin/codex".to_string())
    );
    assert_eq!(FfiConfig::default().self_exe(), SelfExe::Running);
}

#[test]
fn start_settings_with_defaults() {
    let settings = FfiConfig::default().start_settings();
    assert_eq!(settings.codex_home, CodexHome::Discover);
    assert_eq!(settings.config_toml, None);
    assert_eq!(settings.codex_self_exe, SelfExe::Running);
    assert_eq!(settings.codex_linux_sandbox_exe, None);
    assert_eq!(settings.initialize.client_info.name, "codex_ffi");
    assert_eq!(settings.initialize.client_info.title, None);
    assert_eq!(settings.initialize.client_info.version, "0.0.0");
    let caps = settings.initialize.capabilities.expect("capabilities are always sent");
    assert!(caps.experimental_api);
    assert!(!caps.request_attestation);
    assert_eq!(caps.opt_out_notification_methods, None);
    assert!(!caps.mcp_server_openai_form_elicitation);
    assert_eq!(settings.channel_capacity, 1024);
    assert!(!settings.strict_config);
    assert!(settings.enable_codex_api_key_env);
    assert_eq!(settings.session_source, SessionSource::VSCode);
}

#[test]
fn start_settings_with_every_field() {
    let settings = named_config().start_settings();
    assert_eq!(
        settings.codex_home,
        CodexHome::Configured("/tmp/codex-home".to_string())
    );
    assert_eq!(settings.config_toml, Some("model = \"o3\"".to_string()));
    assert_eq!(
        settings.codex_self_exe,
        SelfExe::Configured("/opt/codex/bin/codex".to_string())
    );
    assert_eq!(
        settings.codex_linux_sandbox_exe,
        Some("/opt/codex/bin/sandbox".to_string())
    );
    assert_eq!(settings.initialize.client_info.name, "codex_ffi_test");
    assert_eq!(settings.initialize.client_info.title, Some("Test".to_string()));
    assert_eq!(settings.initialize.client_info.version, "1.2.3");
    let caps = settings.initialize.capabilities.expect("capabilities are always sent");
    assert!(!caps.experimental_api);
    assert!(!caps.request_attestation);
    assert_eq!(
        caps.opt_out_notification_methods,
        Some(vec!["thread/started".to_string()])
    );
    assert!(caps.mcp_server_openai_form_elicitation);
    assert_eq!(settings.channel_capacity, 16);
    assert!(!settings.strict_config);
    assert!(settings.enable_codex_api_key_env);
    assert_eq!(settings.session_source, SessionSource::VSCode);
}

#[test]
fn exec_server_paths_follow_absolute_executable() {
    assert_eq!(
        exec_server_paths(Some("/opt/codex".to_string()), Some("/opt/sandbox".to_string())),
        Some(ExecServerPaths {
            self_exe: "/opt/codex".to_string(),
            linux_sandbox_exe: Some("/opt/sandbox".to_string()),
        })
    );
    assert_eq!(
        exec_server_paths(Some("/opt/codex".to_string()), None),
        Some(ExecServerPaths { self_exe: "/opt/codex".to_string(), linux_sandbox_exe: None })
    );
    assert_eq!(exec_server_paths(None, Some("/opt/sandbox".to_string())), None);
}
