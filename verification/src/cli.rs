//! The commands of the tool as plain values, and what each plugin command
//! asks for.

use vstd::prelude::*;
use vstd::string::*;
use crate::text::{join2, join3, owned};

verus! {

/// A parsed command line.
#[derive(Debug)]
pub struct Cli {
    /// Whether diagnostics are to be shown.
    pub verbose: bool,
    pub command: Commands,
}

/// The commands of the tool.
#[derive(Debug)]
#[allow(inconsistent_fields)]
pub enum Commands {
    /// Manage plugins.
    Plugin { action: PluginCommands },
    /// Sign in to the service.
    Login { username: String, password: String, server: String },
    /// Show the statistics of the service.
    Stat,
    /// Show or fetch logs.
    Log { action: LogCommands },
}

/// The log commands.
#[derive(Debug)]
pub enum LogCommands {
    /// Follow the live log; with `flush`, show only the latest line.
    Live { flush: bool },
    /// Fetch the log history into a file.
    History { output_file: String },
}

/// The plugin commands.
#[derive(Debug)]
pub enum PluginCommands {
    /// List the plugins.
    Get,
    /// Install a plugin, from the current directory or from a repository.
    Install { from_local: bool, from_git: Option<String> },
    /// Disable a plugin.
    Off { plugin_name: String },
    /// Enable a plugin.
    On { plugin_name: String },
    /// Reload a plugin.
    Reload { plugin_name: String },
    /// Uninstall a plugin.
    Uninstall { plugin_name: String },
}

/// The name of a log command.
pub open spec fn log_command_name(command: LogCommands) -> Seq<char> {
    match command {
        LogCommands::Live { .. } => "Live"@,
        LogCommands::History { .. } => "History"@,
    }
}

/// The name of a plugin command.
pub open spec fn plugin_command_name(command: PluginCommands) -> Seq<char> {
    match command {
        PluginCommands::Get => "Get"@,
        PluginCommands::Install { .. } => "Install"@,
        PluginCommands::Off { .. } => "Off"@,
        PluginCommands::On { .. } => "On"@,
        PluginCommands::Reload { .. } => "Reload"@,
        PluginCommands::Uninstall { .. } => "Uninstall"@,
    }
}

/// The name under which the service knows a plugin command: its name in
/// lower case.
pub open spec fn plugin_action_name(command: PluginCommands) -> Seq<char> {
    match command {
        PluginCommands::Get => "get"@,
        PluginCommands::Install { .. } => "install"@,
        PluginCommands::Off { .. } => "off"@,
        PluginCommands::On { .. } => "on"@,
        PluginCommands::Reload { .. } => "reload"@,
        PluginCommands::Uninstall { .. } => "uninstall"@,
    }
}

/// The plugin that a command names, where it names one.
pub open spec fn named_plugin(command: PluginCommands) -> Option<Seq<char>> {
    match command {
        PluginCommands::Off { plugin_name } => Some(plugin_name@),
        PluginCommands::On { plugin_name } => Some(plugin_name@),
        PluginCommands::Reload { plugin_name } => Some(plugin_name@),
        PluginCommands::Uninstall { plugin_name } => Some(plugin_name@),
        _ => None,
    }
}

impl LogCommands {
    /// The name of the command.
    pub fn as_ref(&self) -> (r: &'static str)
        ensures
            r@ == log_command_name(*self),
    {
        match self {
            LogCommands::Live { .. } => "Live",
            LogCommands::History { .. } => "History",
        }
    }
}

impl PluginCommands {
    /// The name of the command.
    pub fn as_ref(&self) -> (r: &'static str)
        ensures
            r@ == plugin_command_name(*self),
    {
        match self {
            PluginCommands::Get => "Get",
            PluginCommands::Install { .. } => "Install",
            PluginCommands::Off { .. } => "Off",
            PluginCommands::On { .. } => "On",
            PluginCommands::Reload { .. } => "Reload",
            PluginCommands::Uninstall { .. } => "Uninstall",
        }
    }

    /// The name under which the service knows the command.
    pub fn action_name(&self) -> (r: &'static str)
        ensures
            r@ == plugin_action_name(*self),
    {
        match self {
            PluginCommands::Get => "get",
            PluginCommands::Install { .. } => "install",
            PluginCommands::Off { .. } => "off",
            PluginCommands::On { .. } => "on",
            PluginCommands::Reload { .. } => "reload",
            PluginCommands::Uninstall { .. } => "uninstall",
        }
    }

    /// The plugin that the command names, where it names one.
    pub fn plugin_name(&self) -> (r: Option<&str>)
        ensures
            match r {
                Some(name) => named_plugin(*self) == Some(name@),
                None => named_plugin(*self) is None,
            },
    {
        match self {
            PluginCommands::Off { plugin_name } => Some(plugin_name.as_str()),
            PluginCommands::On { plugin_name } => Some(plugin_name.as_str()),
            PluginCommands::Reload { plugin_name } => Some(plugin_name.as_str()),
            PluginCommands::Uninstall { plugin_name } => Some(plugin_name.as_str()),
            _ => None,
        }
    }
}

/// What a plugin command asks for.
#[derive(Debug)]
pub enum PluginPlan {
    /// List the plugins.
    List,
    /// Pack the current directory and install the archive.
    InstallLocal,
    /// Install from the repository at this address.
    InstallRemote(String),
    /// An installation without a source: the command is refused.
    MissingSource,
    /// Apply the action to the plugin.
    Action { action: String, plugin_name: String },
}

/// A `PluginPlan` as a mathematical value.
pub enum PluginPlanModel {
    List,
    InstallLocal,
    InstallRemote(Seq<char>),
    MissingSource,
    Action { action: Seq<char>, plugin_name: Seq<char> },
}

impl View for PluginPlan {
    type V = PluginPlanModel;

    open spec fn view(&self) -> PluginPlanModel {
        match self {
            PluginPlan::List => PluginPlanModel::List,
            PluginPlan::InstallLocal => PluginPlanModel::InstallLocal,
            PluginPlan::InstallRemote(url) => PluginPlanModel::InstallRemote(url@),
            PluginPlan::MissingSource => PluginPlanModel::MissingSource,
            PluginPlan::Action { action, plugin_name } => PluginPlanModel::Action {
                action: action@,
                plugin_name: plugin_name@,
            },
        }
    }
}

/// What a plugin command asks for. An installation from the current
/// directory wins over one from a repository; one without either is refused.
pub open spec fn plugin_plan(command: PluginCommands) -> PluginPlanModel {
    match command {
        PluginCommands::Get => PluginPlanModel::List,
        PluginCommands::Install { from_local, from_git } => if from_local {
            PluginPlanModel::InstallLocal
        } else {
            match from_git {
                Some(url) => PluginPlanModel::InstallRemote(url@),
                None => PluginPlanModel::MissingSource,
            }
        },
        _ => PluginPlanModel::Action {
            action: plugin_action_name(command),
            plugin_name: named_plugin(command)->Some_0,
        },
    }
}

/// The diagnostic line that goes with a plan, where it has one.
pub open spec fn plan_trace(plan: PluginPlanModel) -> Option<Seq<char>> {
    match plan {
        PluginPlanModel::InstallLocal => Some("Installing plugin from current path"@),
        PluginPlanModel::InstallRemote(url) => Some(
            "Installing plugin from git repository: "@ + url,
        ),
        PluginPlanModel::Action { action, plugin_name } => Some(
            action + " plugin: "@ + plugin_name,
        ),
        _ => None,
    }
}

/// Decides what a plugin command asks for.
pub fn handle_plugin_command(action: PluginCommands) -> (r: PluginPlan)
    ensures
        r@ == plugin_plan(action),
{
    let name = action.action_name();
    match action {
        PluginCommands::Get => PluginPlan::List,
        PluginCommands::Install { from_local, from_git } => {
            if from_local {
                PluginPlan::InstallLocal
            } else {
                match from_git {
                    Some(url) => PluginPlan::InstallRemote(url),
                    None => PluginPlan::MissingSource,
                }
            }
        },
        PluginCommands::Off { plugin_name } => PluginPlan::Action {
            action: owned(name),
            plugin_name,
        },
        PluginCommands::On { plugin_name } => PluginPlan::Action {
            action: owned(name),
            plugin_name,
        },
        PluginCommands::Reload { plugin_name } => PluginPlan::Action {
            action: owned(name),
            plugin_name,
        },
        PluginCommands::Uninstall { plugin_name } => PluginPlan::Action {
            action: owned(name),
            plugin_name,
        },
    }
}

impl PluginPlan {
    /// The diagnostic line that goes with the plan, where it has one.
    pub fn trace(&self) -> (r: Option<String>)
        ensures
            match r {
                Some(line) => plan_trace(self@) == Some(line@),
                None => plan_trace(self@) is None,
            },
    {
        match self {
            PluginPlan::InstallLocal => Some(owned("Installing plugin from current path")),
            PluginPlan::InstallRemote(url) => Some(
                join2("Installing plugin from git repository: ", url.as_str()),
            ),
            PluginPlan::Action { action, plugin_name } => Some(
                join3(action.as_str(), " plugin: ", plugin_name.as_str()),
            ),
            _ => None,
        }
    }

    /// The words with which a command without a source is refused.
    pub fn refusal(&self) -> (r: Option<&'static str>)
        ensures
            r is Some <==> self@ is MissingSource,
            r is Some ==> r->Some_0@
                == "Please specify either --from-local or --from-git option"@,
    {
        match self {
            PluginPlan::MissingSource => Some(
                "Please specify either --from-local or --from-git option",
            ),
            _ => None,
        }
    }
}

} // verus!
