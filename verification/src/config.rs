//! The configuration a run is planned from: global settings and the ordered
//! groups of task definitions.
use crate::error::TideError;
use crate::paths::{clone_path, config_dir, join_path};
use crate::text::{is_blank, trim, trimmed};
use std::collections::HashMap;
use std::path::PathBuf;
use vstd::prelude::*;

verus! {

/// Timeout, in seconds, of a task that names none.
pub const DEFAULT_TIMEOUT_SECS: u64 = 300;

/// What a task definition says, with every string as its characters.
pub struct TaskSpec {
    pub name: Seq<char>,
    pub icon: Seq<char>,
    pub command: Seq<Seq<char>>,
    pub required: bool,
    pub sudo: bool,
    pub enabled: bool,
    pub check_command: Option<Seq<char>>,
    pub check_path: Option<Seq<char>>,
    pub description: Seq<char>,
    pub timeout: Option<u64>,
    pub env: Map<String, String>,
    pub working_dir: Option<Seq<char>>,
}

/// What a task group says.
pub struct GroupSpec {
    pub name: Seq<char>,
    pub icon: Seq<char>,
    pub enabled: bool,
    pub description: Seq<char>,
    pub parallel: bool,
    pub tasks: Seq<TaskSpec>,
}

/// What the global settings say.
pub struct SettingsSpec {
    pub show_banner: bool,
    pub show_weather: bool,
    pub show_system_info: bool,
    pub show_progress: bool,
    pub parallel_execution: bool,
    pub parallel_limit: usize,
    pub skip_optional_on_error: bool,
    pub keychain_label: Option<Seq<char>>,
    pub use_colors: bool,
    pub verbose: bool,
    pub log_file: Option<Seq<char>>,
    pub desktop_notifications: bool,
}

/// What a configuration says.
pub struct ConfigSpec {
    pub settings: SettingsSpec,
    pub groups: Seq<GroupSpec>,
}

/// Individual task configuration.
#[derive(Debug, PartialEq, Eq)]
pub struct TaskConfig {
    pub name: String,
    pub icon: String,
    /// Argument vector; index 0 is the executable.
    pub command: Vec<String>,
    /// A failing required task is a failure; a failing optional one is skipped.
    pub required: bool,
    /// Whether the command runs with elevated privilege.
    pub sudo: bool,
    pub enabled: bool,
    /// Executable that must be found for the task to run.
    pub check_command: Option<String>,
    /// Path that must exist for the task to run.
    pub check_path: Option<String>,
    pub description: String,
    /// Seconds the command may take.
    pub timeout: Option<u64>,
    pub env: HashMap<String, String>,
    pub working_dir: Option<String>,
}

/// Task group configuration.
#[derive(Debug, PartialEq, Eq)]
pub struct TaskGroup {
    pub name: String,
    pub icon: String,
    pub enabled: bool,
    pub description: String,
    pub parallel: bool,
    pub tasks: Vec<TaskConfig>,
}

/// Global settings.
#[derive(Debug, PartialEq, Eq)]
pub struct Settings {
    pub show_banner: bool,
    pub show_weather: bool,
    pub show_system_info: bool,
    pub show_progress: bool,
    pub parallel_execution: bool,
    pub parallel_limit: usize,
    pub skip_optional_on_error: bool,
    pub keychain_label: Option<String>,
    pub use_colors: bool,
    pub verbose: bool,
    pub log_file: Option<String>,
    pub desktop_notifications: bool,
}

/// Main configuration structure.
#[derive(Debug, PartialEq, Eq)]
pub struct Config {
    pub settings: Settings,
    pub groups: Vec<TaskGroup>,
}

impl View for TaskConfig {
    type V = TaskSpec;

    open spec fn view(&self) -> TaskSpec {
        TaskSpec {
            name: self.name@,
            icon: self.icon@,
            command: self.command.deep_view(),
            required: self.required,
            sudo: self.sudo,
            enabled: self.enabled,
            check_command: self.check_command.deep_view(),
            check_path: self.check_path.deep_view(),
            description: self.description@,
            timeout: self.timeout,
            env: self.env@,
            working_dir: self.working_dir.deep_view(),
        }
    }
}

/// The tasks of `tasks`, each by its view.
pub open spec fn task_specs(tasks: Seq<TaskConfig>) -> Seq<TaskSpec> {
    Seq::new(tasks.len(), |i: int| tasks[i]@)
}

impl View for TaskGroup {
    type V = GroupSpec;

    open spec fn view(&self) -> GroupSpec {
        GroupSpec {
            name: self.name@,
            icon: self.icon@,
            enabled: self.enabled,
            description: self.description@,
            parallel: self.parallel,
            tasks: task_specs(self.tasks@),
        }
    }
}

/// The groups of `groups`, each by its view.
pub open spec fn group_specs(groups: Seq<TaskGroup>) -> Seq<GroupSpec> {
    Seq::new(groups.len(), |i: int| groups[i]@)
}

impl View for Settings {
    type V = SettingsSpec;

    open spec fn view(&self) -> SettingsSpec {
        SettingsSpec {
            show_banner: self.show_banner,
            show_weather: self.show_weather,
            show_system_info: self.show_system_info,
            show_progress: self.show_progress,
            parallel_execution: self.parallel_execution,
            parallel_limit: self.parallel_limit,
            skip_optional_on_error: self.skip_optional_on_error,
            keychain_label: self.keychain_label.deep_view(),
            use_colors: self.use_colors,
            verbose: self.verbose,
            log_file: self.log_file.deep_view(),
            desktop_notifications: self.desktop_notifications,
        }
    }
}

impl View for Config {
    type V = ConfigSpec;

    open spec fn view(&self) -> ConfigSpec {
        ConfigSpec { settings: self.settings@, groups: group_specs(self.groups@) }
    }
}

impl Clone for TaskConfig {
    fn clone(&self) -> (r: Self)
        ensures
            r@ == self@,
    {
        let command = self.command.clone();
        let r = TaskConfig {
            name: self.name.clone(),
            icon: self.icon.clone(),
            command,
            required: self.required,
            sudo: self.sudo,
            enabled: self.enabled,
            check_command: self.check_command.clone(),
            check_path: self.check_path.clone(),
            description: self.description.clone(),
            timeout: self.timeout,
            env: self.env.clone(),
            working_dir: self.working_dir.clone(),
        };
        r
    }
}

impl Clone for TaskGroup {
    fn clone(&self) -> (r: Self)
        ensures
            r@ == self@,
    {
        let mut tasks: Vec<TaskConfig> = Vec::new();
        let mut i: usize = 0;
        while i < self.tasks.len()
            invariant
                i <= self.tasks.len(),
                tasks.len() == i,
                forall|j: int| 0 <= j < i ==> tasks[j]@ == self.tasks[j]@,
            decreases self.tasks.len() - i,
        {
            tasks.push(self.tasks[i].clone());
            i += 1;
        }
        assert(task_specs(tasks@) =~= task_specs(self.tasks@));
        TaskGroup {
            name: self.name.clone(),
            icon: self.icon.clone(),
            enabled: self.enabled,
            description: self.description.clone(),
            parallel: self.parallel,
            tasks,
        }
    }
}

/// Default for a switch that is on unless the configuration says otherwise.
pub fn default_true() -> (b: bool)
    ensures
        b,
{
    true
}

/// Default for a switch that is off unless the configuration says otherwise.
pub fn default_false() -> (b: bool)
    ensures
        !b,
{
    false
}

/// Default for the number of tasks that may run side by side.
pub fn default_parallel_limit() -> (n: usize)
    ensures
        n == 4,
{
    4
}

/// The settings of a run that configures nothing.
pub open spec fn default_settings() -> SettingsSpec {
    SettingsSpec {
        show_banner: true,
        show_weather: true,
        show_system_info: true,
        show_progress: true,
        parallel_execution: false,
        parallel_limit: 4,
        skip_optional_on_error: false,
        keychain_label: Some("tide-sudo"@),
        use_colors: true,
        verbose: false,
        log_file: None,
        desktop_notifications: true,
    }
}

impl Default for Settings {
    fn default() -> (s: Self)
        ensures
            s@ == default_settings(),
    {
        Self {
            show_banner: true,
            show_weather: true,
            show_system_info: true,
            show_progress: true,
            parallel_execution: false,
            parallel_limit: 4,
            skip_optional_on_error: false,
            keychain_label: Some("tide-sudo".to_owned()),
            use_colors: true,
            verbose: false,
            log_file: None,
            desktop_notifications: true,
        }
    }
}

impl Settings {
    /// Return the configured log file path, ignoring empty values: the
    /// path without surrounding white space, or none where nothing is left
    /// of it.
    pub fn log_file_path(&self) -> (path: Option<&str>)
        ensures
            path.deep_view() == match self.log_file {
                Some(raw) => if is_blank(raw@) {
                    None
                } else {
                    Some(trimmed(raw@))
                },
                None => None,
            },
    {
        match &self.log_file {
            Some(raw) => {
                let path = trim(raw.as_str());
                if path.is_empty() {
                    None
                } else {
                    Some(path)
                }
            },
            None => None,
        }
    }

    /// The label under which the elevation secret is stored: the
    /// configured one, or `tide-sudo` where none is configured.
    pub fn keychain_label(&self) -> (label: String)
        ensures
            label@ == match self.keychain_label {
                Some(l) => l@,
                None => "tide-sudo"@,
            },
    {
        match &self.keychain_label {
            Some(l) => l.clone(),
            None => "tide-sudo".to_owned(),
        }
    }
}

/// The task that installs system updates.
pub open spec fn system_update_task() -> TaskSpec {
    TaskSpec {
        name: "macOS Updates"@,
        icon: "üçé"@,
        command: seq!["softwareupdate"@, "--install"@, "--all"@],
        required: true,
        sudo: true,
        enabled: true,
        check_command: Some("softwareupdate"@),
        check_path: None,
        description: "Install macOS system updates"@,
        timeout: Some(3600),
        env: Map::empty(),
        working_dir: None,
    }
}

/// The task that updates the package definitions.
pub open spec fn update_formulae_task() -> TaskSpec {
    TaskSpec {
        name: "Update Formulae"@,
        icon: "üì¶"@,
        command: seq!["brew"@, "update"@],
        required: true,
        sudo: false,
        enabled: true,
        check_command: Some("brew"@),
        check_path: None,
        description: "Update Homebrew package definitions"@,
        timeout: Some(300),
        env: Map::empty(),
        working_dir: None,
    }
}

/// The task that upgrades the packages.
pub open spec fn upgrade_packages_task() -> TaskSpec {
    TaskSpec {
        name: "Upgrade Packages"@,
        icon: "‚¨ÜÔ∏è"@,
        command: seq!["brew"@, "upgrade"@],
        required: true,
        sudo: false,
        enabled: true,
        check_command: Some("brew"@),
        check_path: None,
        description: "Upgrade all outdated packages"@,
        timeout: Some(1200),
        env: Map::empty(),
        working_dir: None,
    }
}

/// The configuration that a fresh installation starts from: the default
/// settings, a group for system updates and a group for the package
/// manager, both sequential.
pub open spec fn default_config() -> ConfigSpec {
    ConfigSpec {
        settings: default_settings(),
        groups: seq![
            GroupSpec {
                name: "System Updates"@,
                icon: "üçé"@,
                enabled: true,
                description: "macOS system updates"@,
                parallel: false,
                tasks: seq![system_update_task()],
            },
            GroupSpec {
                name: "Homebrew"@,
                icon: "üç∫"@,
                enabled: true,
                description: "Homebrew package manager"@,
                parallel: false,
                tasks: seq![update_formulae_task(), upgrade_packages_task()],
            },
        ],
    }
}

/// Whether `e` is the error that no configuration directory is known.
pub open spec fn is_no_config_dir(e: TideError) -> bool {
    e matches TideError::Config(reason) && reason@ == "Could not determine config directory"@
}

impl Config {
    /// The error that there is no configuration file at the path shown as
    /// `path`.
    pub fn not_found(path: &str) -> (e: TideError)
        ensures
            e matches TideError::Config(reason) && reason@ == "Config file not found: "@ + path@
                + "\nRun 'tide --init' to create one."@,
    {
        let mut reason = "Config file not found: ".to_owned();
        reason.append(path);
        reason.append("\nRun 'tide --init' to create one.");
        TideError::Config(reason)
    }

    /// Resolve the path that should be used for the configuration file:
    /// the given one, or the default one where none is given.
    pub fn resolve_path(path: Option<&PathBuf>) -> (r: Result<PathBuf, TideError>)
        ensures
            path matches Some(p) ==> r == Ok::<PathBuf, TideError>(*p),
            r is Err ==> path is None,
            r matches Err(e) ==> is_no_config_dir(e),
    {
        match path {
            Some(p) => Ok(clone_path(p)),
            None => Self::default_config_path(),
        }
    }

    /// The configuration file's place below a configuration directory, or
    /// the error that no such directory is known.
    pub fn config_path_in(dir: Option<PathBuf>) -> (r: Result<PathBuf, TideError>)
        ensures
            r is Ok <==> dir is Some,
            r matches Err(e) ==> is_no_config_dir(e),
    {
        match dir {
            Some(dir) => Ok(join_path(&join_path(&dir, "tide"), "config.toml")),
            None => Err(TideError::Config("Could not determine config directory".to_owned())),
        }
    }

    /// Get default configuration path: `tide/config.toml` below the user's
    /// configuration directory.
    pub fn default_config_path() -> (r: Result<PathBuf, TideError>)
        ensures
            r matches Err(e) ==> is_no_config_dir(e),
    {
        Self::config_path_in(config_dir())
    }

    /// Create default configuration.
    pub fn default() -> (c: Self)
        ensures
            c@ == default_config(),
    {
        let system_updates = TaskConfig {
            name: "macOS Updates".to_owned(),
            icon: "üçé".to_owned(),
            command: vec!["softwareupdate".to_owned(), "--install".to_owned(), "--all".to_owned()],
            required: true,
            sudo: true,
            enabled: true,
            check_command: Some("softwareupdate".to_owned()),
            check_path: None,
            description: "Install macOS system updates".to_owned(),
            timeout: Some(3600),
            env: HashMap::new(),
            working_dir: None,
        };
        let update_formulae = TaskConfig {
            name: "Update Formulae".to_owned(),
            icon: "üì¶".to_owned(),
            command: vec!["brew".to_owned(), "update".to_owned()],
            required: true,
            sudo: false,
            enabled: true,
            check_command: Some("brew".to_owned()),
            check_path: None,
            description: "Update Homebrew package definitions".to_owned(),
            timeout: Some(300),
            env: HashMap::new(),
            working_dir: None,
        };
        let upgrade_packages = TaskConfig {
            name: "Upgrade Packages".to_owned(),
            icon: "‚¨ÜÔ∏è".to_owned(),
            command: vec!["brew".to_owned(), "upgrade".to_owned()],
            required: true,
            sudo: false,
            enabled: true,
            check_command: Some("brew".to_owned()),
            check_path: None,
            description: "Upgrade all outdated packages".to_owned(),
            timeout: Some(1200),
            env: HashMap::new(),
            working_dir: None,
        };
        assert(system_updates@.command =~= system_update_task().command);
        assert(update_formulae@.command =~= update_formulae_task().command);
        assert(upgrade_packages@.command =~= upgrade_packages_task().command);
        let system = TaskGroup {
            name: "System Updates".to_owned(),
            icon: "üçé".to_owned(),
            enabled: true,
            description: "macOS system updates".to_owned(),
            parallel: false,
            tasks: vec![system_updates],
        };
        let homebrew = TaskGroup {
            name: "Homebrew".to_owned(),
            icon: "üç∫".to_owned(),
            enabled: true,
            description: "Homebrew package manager".to_owned(),
            parallel: false,
            tasks: vec![update_formulae, upgrade_packages],
        };
        assert(system@.tasks =~= seq![system_update_task()]);
        assert(homebrew@.tasks =~= seq![update_formulae_task(), upgrade_packages_task()]);
        let c = Config { settings: Settings::default(), groups: vec![system, homebrew] };
        assert(c@.groups =~= default_config().groups);
        c
    }
}

} // verus!
