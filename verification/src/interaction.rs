//! The runtime option tree: the platform's parsed representation of what
//! a user supplied for one interaction, plus the side table of resolved
//! entities supplied alongside it.

use vstd::prelude::*;
use crate::def::CommandOptionType;

verus! {

/// The tagged value of one runtime option. References to users, channels,
/// roles, mentionables and attachments are carried by id; floating-point
/// numbers as their IEEE-754 bit patterns.
pub enum OptionValue {
    String(String),
    Integer(i64),
    Number(u64),
    Boolean(bool),
    User(u64),
    Channel(u64),
    Role(u64),
    Mentionable(u64),
    Attachment(u64),
    /// The option list of a selected subcommand.
    SubCommand(Vec<CommandDataOption>),
    /// The option list of a selected subcommand group.
    SubCommandGroup(Vec<CommandDataOption>),
}

/// One named option of a runtime option tree.
pub struct CommandDataOption {
    pub name: String,
    pub value: OptionValue,
}

/// The value kind an option value carries.
pub open spec fn spec_value_tag(v: OptionValue) -> CommandOptionType {
    match v {
        OptionValue::String(_) => CommandOptionType::String,
        OptionValue::Integer(_) => CommandOptionType::Integer,
        OptionValue::Number(_) => CommandOptionType::Number,
        OptionValue::Boolean(_) => CommandOptionType::Boolean,
        OptionValue::User(_) => CommandOptionType::User,
        OptionValue::Channel(_) => CommandOptionType::Channel,
        OptionValue::Role(_) => CommandOptionType::Role,
        OptionValue::Mentionable(_) => CommandOptionType::Mentionable,
        OptionValue::Attachment(_) => CommandOptionType::Attachment,
        OptionValue::SubCommand(_) => CommandOptionType::SubCommand,
        OptionValue::SubCommandGroup(_) => CommandOptionType::SubCommandGroup,
    }
}

impl OptionValue {
    /// The value kind this value carries.
    pub fn value_tag(&self) -> (t: CommandOptionType)
        ensures
            t == spec_value_tag(*self),
    {
        match self {
            OptionValue::String(_) => CommandOptionType::String,
            OptionValue::Integer(_) => CommandOptionType::Integer,
            OptionValue::Number(_) => CommandOptionType::Number,
            OptionValue::Boolean(_) => CommandOptionType::Boolean,
            OptionValue::User(_) => CommandOptionType::User,
            OptionValue::Channel(_) => CommandOptionType::Channel,
            OptionValue::Role(_) => CommandOptionType::Role,
            OptionValue::Mentionable(_) => CommandOptionType::Mentionable,
            OptionValue::Attachment(_) => CommandOptionType::Attachment,
            OptionValue::SubCommand(_) => CommandOptionType::SubCommand,
            OptionValue::SubCommandGroup(_) => CommandOptionType::SubCommandGroup,
        }
    }
}

/// The side table of resolved entities supplied alongside an interaction,
/// keyed by opaque id. The decoder only looks ids up here; it never
/// fetches anything.
pub struct ResolvedData {
    pub users: Vec<u64>,
    pub channels: Vec<u64>,
    pub roles: Vec<u64>,
    pub attachments: Vec<u64>,
}

/// Whether an id list contains an id.
fn ids_contain(ids: &Vec<u64>, id: u64) -> (r: bool)
    ensures
        r == ids@.contains(id),
{
    let mut i: usize = 0;
    while i < ids.len()
        invariant
            0 <= i <= ids@.len(),
            forall|j: int| 0 <= j < i ==> ids@[j] != id,
        decreases ids@.len() - i,
    {
        if ids[i] == id {
            assert(ids@.contains(id));
            return true;
        }
        i = i + 1;
    }
    assert(forall|j: int| 0 <= j < ids@.len() ==> ids@[j] != id);
    false
}

impl ResolvedData {
    /// Whether a user with this id was supplied.
    pub fn has_user(&self, id: u64) -> (r: bool)
        ensures
            r == self.users@.contains(id),
    {
        ids_contain(&self.users, id)
    }

    /// Whether a channel with this id was supplied.
    pub fn has_channel(&self, id: u64) -> (r: bool)
        ensures
            r == self.channels@.contains(id),
    {
        ids_contain(&self.channels, id)
    }

    /// Whether a role with this id was supplied.
    pub fn has_role(&self, id: u64) -> (r: bool)
        ensures
            r == self.roles@.contains(id),
    {
        ids_contain(&self.roles, id)
    }

    /// Whether an attachment with this id was supplied.
    pub fn has_attachment(&self, id: u64) -> (r: bool)
        ensures
            r == self.attachments@.contains(id),
    {
        ids_contain(&self.attachments, id)
    }
}

/// One interaction as handed over by the transport layer: the option tree
/// and the optional side table of resolved entities.
pub struct CommandInputData {
    pub options: Vec<CommandDataOption>,
    pub resolved: Option<ResolvedData>,
}

} // verus!
