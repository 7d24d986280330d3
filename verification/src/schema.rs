//! The registrable schema tree and the builder that assembles one option
//! node from a field's metadata, constraints, localizations and
//! requiredness.

use vstd::prelude::*;
use crate::channel::ChannelType;
use crate::choice::CommandOptionChoice;
use crate::constraint::{CommandOptionData, CommandOptionValue};
use crate::def::CommandOptionType;

verus! {

/// One option node of the registrable command tree, in the unified flat
/// shape: every per-kind setting is an optional field.
#[derive(Debug, PartialEq, Eq)]
pub struct CommandOptionExtInner {
    pub autocomplete: Option<bool>,
    pub channel_types: Option<Vec<ChannelType>>,
    pub choices: Option<Vec<CommandOptionChoice>>,
    pub description: String,
    pub description_localizations: Option<Vec<(String, String)>>,
    pub kind: CommandOptionType,
    pub max_length: Option<u16>,
    pub max_value: Option<CommandOptionValue>,
    pub min_length: Option<u16>,
    pub min_value: Option<CommandOptionValue>,
    pub name: String,
    pub name_localizations: Option<Vec<(String, String)>>,
    pub options: Option<Vec<CommandOptionExt>>,
    pub required: Option<bool>,
}

/// An option node together with the documentation-only help text, which
/// is never sent to the platform.
#[derive(Debug, PartialEq, Eq)]
pub struct CommandOptionExt {
    /// The platform-facing option node.
    pub inner: CommandOptionExtInner,
    /// Additional optional help.
    pub help: Option<String>,
}

/// Data sent to the platform to create a command: the registrable command
/// tree.
#[derive(Debug, PartialEq, Eq)]
pub struct ApplicationCommandData {
    /// Name of the command. It must be 32 characters or less.
    pub name: String,
    /// Localization dictionary for the command name.
    pub name_localizations: Option<Vec<(String, String)>>,
    /// Description of the command. It must be 100 characters or less.
    pub description: String,
    /// Localization dictionary for the command description.
    pub description_localizations: Option<Vec<(String, String)>>,
    /// Optional help string. Must not be empty.
    pub help: Option<String>,
    /// List of command options.
    pub options: Vec<CommandOptionExt>,
    /// Whether the command is available in direct messages.
    pub dm_permission: Option<bool>,
    /// Default permissions required for a member to run the command, as a
    /// permission bit set.
    pub default_member_permissions: Option<u64>,
    /// Whether the command is a subcommand group.
    pub group: bool,
    /// Whether the command is age-restricted.
    pub nsfw: Option<bool>,
}

/// Data to create one command option from.
#[derive(Debug, PartialEq, Eq)]
pub struct CreateOptionData {
    /// Name of the option. It must be 32 characters or less.
    pub name: String,
    /// Localization dictionary for the option name.
    pub name_localizations: Option<Vec<(String, String)>>,
    /// Description of the option. It must be 100 characters or less.
    pub description: String,
    /// Localization dictionary for the option description.
    pub description_localizations: Option<Vec<(String, String)>>,
    /// Optional help. Must not be empty.
    pub help: Option<String>,
    /// Whether the option must be completed by a user; `None` on nodes
    /// that cannot be required, such as subcommands.
    pub required: Option<bool>,
    /// Whether the option supports autocomplete.
    pub autocomplete: bool,
    /// Constraint settings of the option.
    pub data: CommandOptionData,
}

/// Builder that turns a [`CreateOptionData`] into a [`CommandOptionExt`].
pub struct CreateOptionBuilder {
    pub kind: CommandOptionType,
    pub option: CreateOptionData,
    pub choices: Option<Vec<CommandOptionChoice>>,
    pub options: Option<Vec<CommandOptionExt>>,
}

impl CreateOptionBuilder {
    /// The option node this builder state assembles.
    pub open spec fn spec_build(self) -> CommandOptionExt {
        CommandOptionExt {
            inner: CommandOptionExtInner {
                autocomplete: Some(self.option.autocomplete),
                channel_types: self.option.data.channel_types,
                choices: self.choices,
                description: self.option.description,
                description_localizations: self.option.description_localizations,
                kind: self.kind,
                max_length: self.option.data.max_length,
                max_value: self.option.data.max_value,
                min_length: self.option.data.min_length,
                min_value: self.option.data.min_value,
                name: self.option.name,
                name_localizations: self.option.name_localizations,
                options: self.options,
                required: self.option.required,
            },
            help: self.option.help,
        }
    }

    /// Create a new builder for an option of the given kind, with no
    /// choices and no nested options.
    pub fn new(option: CreateOptionData, kind: CommandOptionType) -> (r: Self)
        ensures
            r == (CreateOptionBuilder { kind, option, choices: None, options: None }),
    {
        Self { kind, option, choices: None, options: None }
    }

    /// Set the option choices.
    pub fn choices(self, choices: Vec<CommandOptionChoice>) -> (r: Self)
        ensures
            r == (CreateOptionBuilder { choices: Some(choices), ..self }),
    {
        Self { choices: Some(choices), ..self }
    }

    /// Set the nested subcommand options.
    pub fn options(self, options: Vec<CommandOptionExt>) -> (r: Self)
        ensures
            r == (CreateOptionBuilder { options: Some(options), ..self }),
    {
        Self { options: Some(options), ..self }
    }

    /// Assemble the option node: every setting of the data is carried
    /// over verbatim, autocomplete is always stated explicitly.
    pub fn build(self) -> (r: CommandOptionExt)
        ensures
            r == self.spec_build(),
    {
        CommandOptionExt {
            inner: CommandOptionExtInner {
                autocomplete: Some(self.option.autocomplete),
                channel_types: self.option.data.channel_types,
                choices: self.choices,
                description: self.option.description,
                description_localizations: self.option.description_localizations,
                kind: self.kind,
                max_length: self.option.data.max_length,
                max_value: self.option.data.max_value,
                min_length: self.option.data.min_length,
                min_value: self.option.data.min_value,
                name: self.option.name,
                name_localizations: self.option.name_localizations,
                options: self.options,
                required: self.option.required,
            },
            help: self.option.help,
        }
    }
}

impl CreateOptionData {
    /// Create a new builder for an option of the given kind.
    pub fn builder(self, kind: CommandOptionType) -> (r: CreateOptionBuilder)
        ensures
            r == (CreateOptionBuilder { kind, option: self, choices: None, options: None }),
    {
        CreateOptionBuilder::new(self, kind)
    }

    /// Convert the data into an option node of the given kind, with no
    /// choices and no nested options.
    pub fn into_option(self, kind: CommandOptionType) -> (r: CommandOptionExt)
        ensures
            r == (CreateOptionBuilder { kind, option: self, choices: None, options: None }).spec_build(),
    {
        self.builder(kind).build()
    }
}

/// The option node a whole command nests as: a subcommand or subcommand
/// group carrying the command's own options.
pub open spec fn spec_command_as_option(item: ApplicationCommandData) -> CommandOptionExt {
    CommandOptionExt {
        inner: CommandOptionExtInner {
            autocomplete: Some(false),
            channel_types: None,
            choices: None,
            description: item.description,
            description_localizations: item.description_localizations,
            kind: if item.group {
                CommandOptionType::SubCommandGroup
            } else {
                CommandOptionType::SubCommand
            },
            max_length: None,
            max_value: None,
            min_length: None,
            min_value: None,
            name: item.name,
            name_localizations: item.name_localizations,
            options: Some(item.options),
            required: None,
        },
        help: item.help,
    }
}

impl From<ApplicationCommandData> for CommandOptionExt {
    /// Nest a whole command as a subcommand or subcommand-group node.
    fn from(item: ApplicationCommandData) -> (r: CommandOptionExt)
        ensures
            r == spec_command_as_option(item),
    {
        let group = item.group;
        let data = CreateOptionData {
            name: item.name,
            name_localizations: item.name_localizations,
            description: item.description,
            description_localizations: item.description_localizations,
            help: item.help,
            required: None,
            autocomplete: false,
            data: Default::default(),
        };
        if group {
            data.builder(CommandOptionType::SubCommandGroup).options(item.options).build()
        } else {
            data.builder(CommandOptionType::SubCommand).options(item.options).build()
        }
    }
}

impl vstd::std_specs::convert::FromSpecImpl<ApplicationCommandData> for CommandOptionExt {
    open spec fn obeys_from_spec() -> bool {
        true
    }

    open spec fn from_spec(item: ApplicationCommandData) -> CommandOptionExt {
        spec_command_as_option(item)
    }
}

} // verus!
