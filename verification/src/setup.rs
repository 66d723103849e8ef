//! First-run setup: which configuration files to write, what to ask, and
//! what to tell the user at the end. Reading the environment, the terminal
//! and the disk is the caller's part.

use crate::guard::ExecutionMode;
use crate::model::optional_text;
use crate::text::{trim, trimmed};
use vstd::prelude::*;

verus! {

/// Stands in a prompt template for the text that the user supplies.
pub const PLACEHOLDER_TOKEN: &'static str = "#[<input>]";

/// Where the configuration lives, below the home directory.
pub const DEFAULT_CONFIG_PATH: &'static str = ".config/smartcat/";

/// The environment variable that names another place for the configuration.
pub const CUSTOM_CONFIG_ENV_VAR: &'static str = "SMARTCAT_CONFIG_PATH";

/// The directory that holds the configuration files.
#[derive(Debug, PartialEq, Eq)]
pub enum ConfigRoot {
    /// The directory named by the environment, as it stands.
    Custom(String),
    /// The default path below this home directory.
    UnderHome(String),
}

/// The mathematical value of a [`ConfigRoot`].
pub enum ConfigRootView {
    Custom(Seq<char>),
    UnderHome(Seq<char>),
}

impl View for ConfigRoot {
    type V = ConfigRootView;

    open spec fn view(&self) -> ConfigRootView {
        match self {
            ConfigRoot::Custom(path) => ConfigRootView::Custom(path@),
            ConfigRoot::UnderHome(home) => ConfigRootView::UnderHome(home@),
        }
    }
}

/// The directory for the configuration: the custom one where it is set, else
/// the default below the home directory, else none.
pub open spec fn chosen_root(custom: Option<Seq<char>>, home: Option<Seq<char>>) -> Option<
    ConfigRootView,
> {
    match custom {
        Some(path) => Some(ConfigRootView::Custom(path)),
        None => match home {
            Some(home) => Some(ConfigRootView::UnderHome(home)),
            None => None,
        },
    }
}

/// Chooses the directory for the configuration from the two environment
/// values that can name it.
pub fn config_root(custom: Option<String>, home: Option<String>) -> (root: Option<ConfigRoot>)
    ensures
        match root {
            Some(r) => chosen_root(optional_text(custom), optional_text(home)) == Some(r@),
            None => chosen_root(optional_text(custom), optional_text(home)) is None,
        },
{
    match custom {
        Some(path) => Some(ConfigRoot::Custom(path)),
        None => match home {
            Some(home) => Some(ConfigRoot::UnderHome(home)),
            None => None,
        },
    }
}

/// What the setup has to do before the program can run.
#[derive(Clone, Copy, Debug, PartialEq, Eq, Structural)]
pub struct SetupPlan {
    /// Write the prompts file with its defaults.
    pub write_prompts: bool,
    /// Tell the user that the prompts file is being written.
    pub announce_prompts: bool,
    /// Write the API configuration file with its defaults.
    pub write_api_config: bool,
    /// Ask the user for an API key to put into that file.
    pub ask_for_key: bool,
}

impl SetupPlan {
    /// A plan speaks of a file only where it has the file written.
    pub open spec fn consistent(self) -> bool {
        &&& self.announce_prompts ==> self.write_prompts
        &&& self.ask_for_key ==> self.write_api_config
    }
}

/// The plan for a given state of the disk: a file is written exactly where
/// it is missing, and the user hears of it and is asked only where somebody
/// is there.
pub open spec fn planned(
    prompts_exist: bool,
    api_config_exists: bool,
    mode: ExecutionMode,
) -> SetupPlan {
    SetupPlan {
        write_prompts: !prompts_exist,
        announce_prompts: !prompts_exist && mode == ExecutionMode::Interactive,
        write_api_config: !api_config_exists,
        ask_for_key: !api_config_exists && mode == ExecutionMode::Interactive,
    }
}

/// Plans the setup. Files that exist are never written again.
pub fn plan(prompts_exist: bool, api_config_exists: bool, mode: ExecutionMode) -> (plan: SetupPlan)
    ensures
        plan == planned(prompts_exist, api_config_exists, mode),
        plan.consistent(),
{
    let attended = match mode {
        ExecutionMode::Interactive => true,
        ExecutionMode::NonInteractive => false,
    };
    SetupPlan {
        write_prompts: !prompts_exist,
        announce_prompts: !prompts_exist && attended,
        write_api_config: !api_config_exists,
        ask_for_key: !api_config_exists && attended,
    }
}

/// The key in an answer: the answer without the whitespace around it, or none
/// where nothing is left.
pub open spec fn key_in(answer: Seq<char>) -> Option<Seq<char>> {
    if trimmed(answer).len() == 0 {
        None
    } else {
        Some(trimmed(answer))
    }
}

/// Reads the API key from the line that the user typed; an empty line skips
/// the key.
pub fn key_from_answer(answer: &str) -> (key: Option<String>)
    ensures
        optional_text(key) == key_in(answer@),
{
    let inner = trim(answer);
    if inner.is_empty() {
        None
    } else {
        Some(inner.to_owned())
    }
}

/// How the setup takes leave of the user.
#[derive(Clone, Copy, Debug, PartialEq, Eq, Structural)]
pub enum Closing {
    /// Say nothing.
    Silent,
    /// Say that all is set, and go on.
    AllSet,
    /// Ask the user to come back with a key, and end the program with success.
    ComeBack,
}

/// The leave to take: none where nobody is there; a request to come back
/// where the user skipped the key; a word that all is set where the API
/// configuration was written with a key.
pub open spec fn closing_for(mode: ExecutionMode, plan: SetupPlan, key_given: bool) -> Closing {
    if mode != ExecutionMode::Interactive {
        Closing::Silent
    } else if plan.ask_for_key && !key_given {
        Closing::ComeBack
    } else if plan.write_api_config {
        Closing::AllSet
    } else {
        Closing::Silent
    }
}

/// Decides how the setup ends, once the plan is carried out.
pub fn closing(mode: ExecutionMode, plan: SetupPlan, key_given: bool) -> (closing: Closing)
    ensures
        closing == closing_for(mode, plan, key_given),
{
    match mode {
        ExecutionMode::NonInteractive => Closing::Silent,
        ExecutionMode::Interactive => {
            if plan.ask_for_key && !key_given {
                Closing::ComeBack
            } else if plan.write_api_config {
                Closing::AllSet
            } else {
                Closing::Silent
            }
        },
    }
}

} // verus!
