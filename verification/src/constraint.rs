//! Per-field option constraints: numeric bounds, string-length bounds and
//! channel-type restrictions.

use vstd::prelude::*;
use crate::channel::ChannelType;

verus! {

/// A numeric bound of a command option: either a whole number or a
/// floating-point number carried as its IEEE-754 bit pattern.
#[derive(Clone, Copy, Debug, PartialEq, Eq, Structural)]
pub enum CommandOptionValue {
    Integer(i64),
    Number(u64),
}

/// Constraint settings of a command option.
///
/// Each setting only applies to certain option kinds: `channel_types` to
/// `Channel` options, `max_value`/`min_value` to `Integer` and `Number`
/// options, `max_length`/`min_length` to `String` options. The schema
/// builder rejects any other pairing.
#[derive(Debug, PartialEq, Eq)]
pub struct CommandOptionData {
    /// Restricts the channel choice to specific types.
    pub channel_types: Option<Vec<ChannelType>>,
    /// Maximum value permitted.
    pub max_value: Option<CommandOptionValue>,
    /// Minimum value permitted.
    pub min_value: Option<CommandOptionValue>,
    /// Maximum string length permitted.
    pub max_length: Option<u16>,
    /// Minimum string length permitted.
    pub min_length: Option<u16>,
}

impl CommandOptionData {
    /// A constraint set with nothing constrained.
    pub open spec fn spec_none() -> CommandOptionData {
        CommandOptionData {
            channel_types: None,
            max_value: None,
            min_value: None,
            max_length: None,
            min_length: None,
        }
    }

    /// True when no setting is present.
    pub open spec fn is_empty(&self) -> bool {
        self.channel_types is None && self.max_value is None && self.min_value is None
            && self.max_length is None && self.min_length is None
    }
}

impl Default for CommandOptionData {
    /// A constraint set with nothing constrained.
    fn default() -> (r: CommandOptionData)
        ensures
            r == CommandOptionData::spec_none(),
    {
        CommandOptionData {
            channel_types: None,
            max_value: None,
            min_value: None,
            max_length: None,
            min_length: None,
        }
    }
}

} // verus!
