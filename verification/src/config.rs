//! Runtime configuration handed over by a C caller, and the start-up settings derived from it.
use vstd::prelude::*;

verus! {

/// The configuration object a C caller passes (as JSON) when creating a runtime.
/// Every field is optional; absent fields fall back to documented defaults.
#[derive(Debug, PartialEq, Eq)]
pub struct FfiConfig {
    pub codex_home: Option<String>,
    pub config_toml: Option<String>,
    pub client_name: Option<String>,
    pub client_title: Option<String>,
    pub client_version: Option<String>,
    pub codex_self_exe: Option<String>,
    pub codex_linux_sandbox_exe: Option<String>,
    pub experimental_api: Option<bool>,
    pub mcp_server_openai_form_elicitation: Option<bool>,
    pub opt_out_notification_methods: Option<Vec<String>>,
    pub channel_capacity: Option<usize>,
}

/// Where the runtime keeps its config and sessions.
#[derive(Debug, PartialEq, Eq)]
pub enum CodexHome {
    /// The directory the caller configured.
    Configured(String),
    /// No directory was configured: the runtime looks up the user's default one.
    Discover,
}

/// The executable the runtime re-enters to run Codex subcommands.
#[derive(Debug, PartialEq, Eq)]
pub enum SelfExe {
    /// The path the caller configured.
    Configured(String),
    /// No path was configured: the runtime uses the executable it is running in.
    Running,
}

/// Identity of the embedding client, sent to the server in `initialize`.
#[derive(Debug, PartialEq, Eq)]
pub struct ClientIdentity {
    pub name: String,
    pub title: Option<String>,
    pub version: String,
}

/// Capabilities the embedding client announces in `initialize`.
#[derive(Debug, PartialEq, Eq)]
pub struct ClientCapabilities {
    pub experimental_api: bool,
    pub request_attestation: bool,
    pub opt_out_notification_methods: Option<Vec<String>>,
    pub mcp_server_openai_form_elicitation: bool,
}

/// Parameters of the `initialize` handshake.
#[derive(Debug, PartialEq, Eq)]
pub struct InitializeSettings {
    pub client_info: ClientIdentity,
    pub capabilities: Option<ClientCapabilities>,
}

/// Everything the runtime needs, beyond the environment, to start its in-process server.
#[derive(Debug, PartialEq, Eq)]
pub struct StartSettings {
    pub codex_home: CodexHome,
    /// TOML text to write as `config.toml` in the home directory, when present.
    pub config_toml: Option<String>,
    /// The executable used to re-enter Codex.
    pub codex_self_exe: SelfExe,
    pub codex_linux_sandbox_exe: Option<String>,
    pub initialize: InitializeSettings,
    pub channel_capacity: usize,
    /// Whether unknown or invalid configuration keys are errors.
    pub strict_config: bool,
    /// Whether an API key in the environment may be used.
    pub enable_codex_api_key_env: bool,
    /// What kind of client the sessions are recorded as coming from.
    pub session_source: SessionSource,
}

/// The kinds of client a session can be recorded as coming from, as far as this runtime
/// uses them.
#[derive(Debug, PartialEq, Eq)]
pub enum SessionSource {
    /// An editor integration; the runtime records its sessions this way.
    VSCode,
}

/// The paths the exec server is started with: the executable it re-enters and, when
/// configured, the Linux sandbox helper.
#[derive(Debug, PartialEq, Eq)]
pub struct ExecServerPaths<P> {
    pub self_exe: P,
    pub linux_sandbox_exe: Option<P>,
}

/// The exec server's paths, given the executable to re-enter once it is known to be an
/// absolute path (`None` when there is none, or it is not absolute): present exactly when
/// that executable is, and then built from it and the sandbox helper.
pub fn exec_server_paths<P>(absolute_self_exe: Option<P>, linux_sandbox_exe: Option<P>) -> (paths: Option<ExecServerPaths<P>>)
    ensures
        match absolute_self_exe {
            Some(exe) => paths == Some(ExecServerPaths { self_exe: exe, linux_sandbox_exe }),
            None => paths is None,
        },
{
    match absolute_self_exe {
        Some(exe) => Some(ExecServerPaths { self_exe: exe, linux_sandbox_exe }),
        None => None,
    }
}

/// The client name used when the configuration names none.
pub open spec fn default_client_name() -> Seq<char> {
    seq!['c', 'o', 'd', 'e', 'x', '_', 'f', 'f', 'i']
}

/// The client version used when the configuration names none.
pub open spec fn default_client_version() -> Seq<char> {
    seq!['0', '.', '0', '.', '0']
}

/// Capacity of the runtime's queues when the configuration sets none.
pub open spec fn default_channel_capacity() -> usize {
    1024
}

/// Value of an optional text field, or the given default.
pub open spec fn text_or(field: Option<String>, default: Seq<char>) -> Seq<char> {
    match field {
        Some(s) => s@,
        None => default,
    }
}

/// Value of an optional flag, or the given default.
pub open spec fn flag_or(field: Option<bool>, default: bool) -> bool {
    match field {
        Some(b) => b,
        None => default,
    }
}

impl Default for FfiConfig {
    /// A configuration with every field absent.
    fn default() -> (config: FfiConfig)
        ensures
            config.codex_home is None,
            config.config_toml is None,
            config.client_name is None,
            config.client_title is None,
            config.client_version is None,
            config.codex_self_exe is None,
            config.codex_linux_sandbox_exe is None,
            config.experimental_api is None,
            config.mcp_server_openai_form_elicitation is None,
            config.opt_out_notification_methods is None,
            config.channel_capacity is None,
    {
        FfiConfig {
            codex_home: None,
            config_toml: None,
            client_name: None,
            client_title: None,
            client_version: None,
            codex_self_exe: None,
            codex_linux_sandbox_exe: None,
            experimental_api: None,
            mcp_server_openai_form_elicitation: None,
            opt_out_notification_methods: None,
            channel_capacity: None,
        }
    }
}

impl FfiConfig {
    /// The home directory: the configured one, or a request to discover the default.
    pub fn codex_home(&self) -> (home: CodexHome)
        ensures
            match self.codex_home {
                Some(dir) => home matches CodexHome::Configured(d) && d@ == dir@,
                None => home is Discover,
            },
    {
        match &self.codex_home {
            Some(dir) => CodexHome::Configured(dir.clone()),
            None => CodexHome::Discover,
        }
    }

    /// The executable to re-enter: the configured path, else the running executable.
    pub fn self_exe(&self) -> (exe: SelfExe)
        ensures
            match self.codex_self_exe {
                Some(path) => exe matches SelfExe::Configured(p) && p@ == path@,
                None => exe is Running,
            },
    {
        match &self.codex_self_exe {
            Some(path) => SelfExe::Configured(path.clone()),
            None => SelfExe::Running,
        }
    }

    /// The client name sent in `initialize`: the configured one, else `codex_ffi`.
    pub fn client_name(&self) -> (name: String)
        ensures
            name@ == text_or(self.client_name, default_client_name()),
            self.client_name matches Some(configured) ==> name@ == configured@,
            self.client_name is None ==> name@ == "codex_ffi"@,
    {
        match &self.client_name {
            Some(name) => name.clone(),
            None => {
                proof {
                    reveal_strlit("codex_ffi");
                }
                "codex_ffi".to_owned()
            },
        }
    }

    /// The client version sent in `initialize`: the configured one, else `0.0.0`.
    pub fn client_version(&self) -> (version: String)
        ensures
            version@ == text_or(self.client_version, default_client_version()),
            self.client_version matches Some(configured) ==> version@ == configured@,
            self.client_version is None ==> version@ == "0.0.0"@,
    {
        match &self.client_version {
            Some(version) => version.clone(),
            None => {
                proof {
                    reveal_strlit("0.0.0");
                }
                "0.0.0".to_owned()
            },
        }
    }

    /// Whether the client opts into experimental server methods (default: yes).
    pub fn experimental_api(&self) -> (on: bool)
        ensures
            on == flag_or(self.experimental_api, true),
            self.experimental_api matches Some(configured) ==> on == configured,
            self.experimental_api is None ==> on,
    {
        match self.experimental_api {
            Some(on) => on,
            None => true,
        }
    }

    /// Whether the client enables OpenAI form elicitation for MCP servers (default: no).
    pub fn mcp_server_openai_form_elicitation(&self) -> (on: bool)
        ensures
            on == flag_or(self.mcp_server_openai_form_elicitation, false),
            self.mcp_server_openai_form_elicitation matches Some(configured) ==> on == configured,
            self.mcp_server_openai_form_elicitation is None ==> !on,
    {
        match self.mcp_server_openai_form_elicitation {
            Some(on) => on,
            None => false,
        }
    }

    /// Capacity of the runtime's queues (default: 1024).
    pub fn channel_capacity(&self) -> (capacity: usize)
        ensures
            capacity == match self.channel_capacity {
                Some(c) => c,
                None => default_channel_capacity(),
            },
    {
        match self.channel_capacity {
            Some(c) => c,
            None => 1024,
        }
    }

    /// Derives the start-up settings: the home directory, the `config.toml` to write, the
    /// executable to re-enter (the configured one, else the running one), and the
    /// `initialize` parameters with every default filled in.
    pub fn start_settings(self) -> (settings: StartSettings)
        ensures
            match self.codex_home {
                Some(dir) => settings.codex_home matches CodexHome::Configured(d) && d@ == dir@,
                None => settings.codex_home is Discover,
            },
            settings.config_toml == self.config_toml,
            match self.codex_self_exe {
                Some(path) => settings.codex_self_exe matches SelfExe::Configured(p) && p@ == path@,
                None => settings.codex_self_exe is Running,
            },
            settings.codex_linux_sandbox_exe == self.codex_linux_sandbox_exe,
            settings.initialize.client_info.name@ == text_or(self.client_name, default_client_name()),
            settings.initialize.client_info.title == self.client_title,
            settings.initialize.client_info.version@ == text_or(
                self.client_version,
                default_client_version(),
            ),
            settings.initialize.capabilities matches Some(caps) && {
                &&& caps.experimental_api == flag_or(self.experimental_api, true)
                &&& !caps.request_attestation
                &&& caps.opt_out_notification_methods == self.opt_out_notification_methods
                &&& caps.mcp_server_openai_form_elicitation == flag_or(
                    self.mcp_server_openai_form_elicitation,
                    false,
                )
            },
            settings.channel_capacity == match self.channel_capacity {
                Some(c) => c,
                None => default_channel_capacity(),
            },
            self.client_name matches Some(n) ==> settings.initialize.client_info.name@ == n@,
            self.client_version matches Some(v) ==> settings.initialize.client_info.version@ == v@,
            self.experimental_api matches Some(b) ==> settings.initialize.capabilities matches Some(
                caps,
            ) && caps.experimental_api == b,
            self.mcp_server_openai_form_elicitation matches Some(b)
                ==> settings.initialize.capabilities matches Some(caps)
                && caps.mcp_server_openai_form_elicitation == b,
            !settings.strict_config,
            settings.enable_codex_api_key_env,
            settings.session_source == SessionSource::VSCode,
    {
        let codex_home = self.codex_home();
        let codex_self_exe = self.self_exe();
        let name = self.client_name();
        let version = self.client_version();
        let experimental_api = self.experimental_api();
        let elicitation = self.mcp_server_openai_form_elicitation();
        let channel_capacity = self.channel_capacity();
        let capabilities = ClientCapabilities {
            experimental_api,
            request_attestation: false,
            opt_out_notification_methods: self.opt_out_notification_methods,
            mcp_server_openai_form_elicitation: elicitation,
        };
        StartSettings {
            codex_home,
            config_toml: self.config_toml,
            codex_self_exe,
            codex_linux_sandbox_exe: self.codex_linux_sandbox_exe,
            initialize: InitializeSettings {
                client_info: ClientIdentity { name, title: self.client_title, version },
                capabilities: Some(capabilities),
            },
            channel_capacity,
            strict_config: false,
            enable_codex_api_key_env: true,
            session_source: SessionSource::VSCode,
        }
    }
}

/// A configured text is used exactly as given, whatever characters it holds; the default
/// only stands in for an absent field.
pub proof fn law_configured_text_is_used(field: Option<String>, default: Seq<char>)
    ensures
        field matches Some(s) ==> text_or(field, default) == s@,
        field is None ==> text_or(field, default) == default,
{
}

/// A configured flag is used as given, for both values; the default only stands in for an
/// absent field.
pub proof fn law_configured_flag_is_used(field: Option<bool>, default: bool)
    ensures
        field matches Some(b) ==> flag_or(field, default) == b,
        field is None ==> flag_or(field, default) == default,
{
}

/// The documented defaults: client `codex_ffi`, version `0.0.0`, capacity 1024.
pub proof fn law_documented_defaults()
    ensures
        default_client_name() == "codex_ffi"@,
        default_client_version() == "0.0.0"@,
        default_channel_capacity() == 1024,
{
    reveal_strlit("codex_ffi");
    reveal_strlit("0.0.0");
    assert(default_client_name() =~= "codex_ffi"@);
    assert(default_client_version() =~= "0.0.0"@);
}

} // verus!
