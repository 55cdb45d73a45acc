//! Which command the arguments of the command line ask for.
//!
//! The arguments come as plain values: for each option that the application knows, whether
//! the command line had it, how often, and with what text. What a command then does to the
//! stored settings, and what is printed, is the caller's business.

use vstd::prelude::*;
use crate::decimal::{decimal_within, parse_decimal};
use crate::text::optional_text;

verus! {

/// One option as the command line gave it.
#[derive(Debug, PartialEq, Eq)]
pub struct CliArgument {
    /// How often the option was written.
    pub occurrences: u8,
    /// The text that came with the option, where what came with it is a text.
    pub value: Option<String>,
}

pub struct CliArgumentView {
    pub occurrences: u8,
    pub value: Option<Seq<char>>,
}

impl View for CliArgument {
    type V = CliArgumentView;

    open spec fn view(&self) -> CliArgumentView {
        CliArgumentView { occurrences: self.occurrences, value: optional_text(self.value) }
    }
}

/// The options that the application knows, each as the command line gave it: `None` where
/// the command line knows nothing of the option.
#[derive(Debug, PartialEq, Eq)]
pub struct CliArguments {
    pub help: Option<CliArgument>,
    pub get_config: Option<CliArgument>,
    pub log_level: Option<CliArgument>,
    pub log_size: Option<CliArgument>,
    pub log_count: Option<CliArgument>,
    pub clear_config: Option<CliArgument>,
}

pub struct CliArgumentsView {
    pub help: Option<CliArgumentView>,
    pub get_config: Option<CliArgumentView>,
    pub log_level: Option<CliArgumentView>,
    pub log_size: Option<CliArgumentView>,
    pub log_count: Option<CliArgumentView>,
    pub clear_config: Option<CliArgumentView>,
}

/// The view of an option that may be unknown to the command line.
pub open spec fn argument_view(argument: Option<CliArgument>) -> Option<CliArgumentView> {
    match argument {
        Some(given) => Some(given@),
        None => None,
    }
}

impl View for CliArguments {
    type V = CliArgumentsView;

    open spec fn view(&self) -> CliArgumentsView {
        CliArgumentsView {
            help: argument_view(self.help),
            get_config: argument_view(self.get_config),
            log_level: argument_view(self.log_level),
            log_size: argument_view(self.log_size),
            log_count: argument_view(self.log_count),
            clear_config: argument_view(self.clear_config),
        }
    }
}

/// What the command line asks for.
#[derive(Debug, PartialEq, Eq)]
pub enum CliCommand {
    /// Print the help text.
    Help,
    /// Print the settings.
    GetConfig,
    /// Set the log level to the one that the text names.
    SetLogLevel(String),
    /// Set the size of a log file, in megabytes.
    SetLogSize(u64),
    /// Say that the size given is none.
    RejectLogSize,
    /// Set the number of log files.
    SetLogCount(u32),
    /// Say that the number given is none.
    RejectLogCount,
    /// Put the settings back to their defaults.
    ClearConfig,
    /// Nothing that can be carried out, though an option was written: the settings are
    /// loaded, and the application starts as usual.
    Unusable,
    /// Nothing: the application starts as usual.
    Nothing,
}

pub enum CliCommandView {
    Help,
    GetConfig,
    SetLogLevel(Seq<char>),
    SetLogSize(u64),
    RejectLogSize,
    SetLogCount(u32),
    RejectLogCount,
    ClearConfig,
    Unusable,
    Nothing,
}

impl View for CliCommand {
    type V = CliCommandView;

    open spec fn view(&self) -> CliCommandView {
        match self {
            CliCommand::Help => CliCommandView::Help,
            CliCommand::GetConfig => CliCommandView::GetConfig,
            CliCommand::SetLogLevel(level) => CliCommandView::SetLogLevel(level@),
            CliCommand::SetLogSize(size) => CliCommandView::SetLogSize(*size),
            CliCommand::RejectLogSize => CliCommandView::RejectLogSize,
            CliCommand::SetLogCount(count) => CliCommandView::SetLogCount(*count),
            CliCommand::RejectLogCount => CliCommandView::RejectLogCount,
            CliCommand::ClearConfig => CliCommandView::ClearConfig,
            CliCommand::Unusable => CliCommandView::Unusable,
            CliCommand::Nothing => CliCommandView::Nothing,
        }
    }
}

/// Whether the option was written at least once.
pub open spec fn provided(argument: Option<CliArgumentView>) -> bool {
    argument matches Some(given) && given.occurrences > 0
}

/// The text that came with an option that was written at least once.
pub open spec fn provided_text(argument: Option<CliArgumentView>) -> Option<Seq<char>> {
    match argument {
        Some(given) => if given.occurrences > 0 {
            given.value
        } else {
            None
        },
        None => None,
    }
}

/// The command for a size: the size where the text writes a number of at least one, with
/// or without a plus sign before it, and a rejection otherwise.
pub open spec fn size_command(text: Seq<char>) -> CliCommandView {
    match decimal_within(text, true, u64::MAX as nat) {
        Some(size) => if size >= 1 {
            CliCommandView::SetLogSize(size as u64)
        } else {
            CliCommandView::RejectLogSize
        },
        None => CliCommandView::RejectLogSize,
    }
}

/// The command for a count: the count where the text writes a number of at least one,
/// with or without a plus sign before it, and a rejection otherwise.
pub open spec fn count_command(text: Seq<char>) -> CliCommandView {
    match decimal_within(text, true, u32::MAX as nat) {
        Some(count) => if count >= 1 {
            CliCommandView::SetLogCount(count as u32)
        } else {
            CliCommandView::RejectLogCount
        },
        None => CliCommandView::RejectLogCount,
    }
}

/// Whether one of the options other than help was written.
pub open spec fn any_provided(arguments: CliArgumentsView) -> bool {
    provided(arguments.get_config) || provided(arguments.log_level) || provided(
        arguments.log_size,
    ) || provided(arguments.log_count) || provided(arguments.clear_config)
}

/// The command that the arguments ask for.
///
/// Help comes first, and is asked for as soon as the command line knows the option at
/// all. Of the others, only options that were written count; they are looked at in the
/// order: settings, level, size, count, defaults. An option for a level, a size or a count
/// that came without a text is passed over.
pub open spec fn command_for(arguments: CliArgumentsView) -> CliCommandView {
    if arguments.help is Some {
        CliCommandView::Help
    } else if !any_provided(arguments) {
        CliCommandView::Nothing
    } else if provided(arguments.get_config) {
        CliCommandView::GetConfig
    } else if provided_text(arguments.log_level) is Some {
        CliCommandView::SetLogLevel(provided_text(arguments.log_level)->0)
    } else if provided_text(arguments.log_size) is Some {
        size_command(provided_text(arguments.log_size)->0)
    } else if provided_text(arguments.log_count) is Some {
        count_command(provided_text(arguments.log_count)->0)
    } else if provided(arguments.clear_config) {
        CliCommandView::ClearConfig
    } else {
        CliCommandView::Unusable
    }
}

/// Whether the option was written at least once.
fn is_provided(argument: &Option<CliArgument>) -> (written: bool)
    ensures
        written == provided(argument_view(*argument)),
{
    match argument {
        Some(given) => given.occurrences > 0,
        None => false,
    }
}

/// The text that came with an option that was written at least once.
fn text_of(argument: &Option<CliArgument>) -> (text: Option<&String>)
    ensures
        match text {
            Some(t) => provided_text(argument_view(*argument)) == Some(t@),
            None => provided_text(argument_view(*argument)) is None,
        },
{
    match argument {
        Some(given) => {
            if given.occurrences > 0 {
                match &given.value {
                    Some(t) => Some(t),
                    None => None,
                }
            } else {
                None
            }
        },
        None => None,
    }
}

/// The command that the arguments ask for.
pub fn cli_command(arguments: &CliArguments) -> (command: CliCommand)
    ensures
        command@ == command_for(arguments@),
{
    if arguments.help.is_some() {
        return CliCommand::Help;
    }
    if !(is_provided(&arguments.get_config) || is_provided(&arguments.log_level) || is_provided(
        &arguments.log_size,
    ) || is_provided(&arguments.log_count) || is_provided(&arguments.clear_config)) {
        return CliCommand::Nothing;
    }
    if is_provided(&arguments.get_config) {
        return CliCommand::GetConfig;
    }
    if let Some(level) = text_of(&arguments.log_level) {
        return CliCommand::SetLogLevel(level.clone());
    }
    if let Some(text) = text_of(&arguments.log_size) {
        return match parse_decimal(text.as_str(), true, 0xffff_ffff_ffff_ffff) {
            Some(size) => if size >= 1 {
                CliCommand::SetLogSize(size)
            } else {
                CliCommand::RejectLogSize
            },
            None => CliCommand::RejectLogSize,
        };
    }
    if let Some(text) = text_of(&arguments.log_count) {
        return match parse_decimal(text.as_str(), true, 0xffff_ffff) {
            Some(count) => if count >= 1 {
                CliCommand::SetLogCount(count as u32)
            } else {
                CliCommand::RejectLogCount
            },
            None => CliCommand::RejectLogCount,
        };
    }
    if is_provided(&arguments.clear_config) {
        return CliCommand::ClearConfig;
    }
    CliCommand::Unusable
}

} // verus!
