//! Command schema builder and interaction decoder for chat-style slash
//! commands.
//!
//! A command is described once, as an immutable [`CommandDef`] tree.
//! Two verified directions consume that description:
//!
//! * the schema builder ([`build_command`]) compiles it into the
//!   registrable command tree ([`ApplicationCommandData`]), rejecting
//!   malformed metadata with an exhaustive error list, and
//! * the interaction decoder ([`decode`], [`CommandDef::from_interaction`])
//!   walks a runtime option tree against the same description and produces
//!   typed values, accepting exactly the trees whose shape the built
//!   schema declared as legal ([`lemma_schema_consistency`]).
//!
//! Floating-point option values (the platform's `Number` type) are carried
//! as their IEEE-754 bit patterns (`u64`); the crate never does arithmetic
//! on them, it only stores and compares them.

mod attribute;
mod builder;
mod channel;
mod choice;
mod constraint;
mod decode;
mod def;
mod interaction;
mod laws;
mod localization;
mod schema;
mod semantics;
mod text;

pub use attribute::AttrError;
pub use attribute::AttrErrorKind;
pub use attribute::AttrValue;
pub use attribute::FieldAttribute;
pub use attribute::FieldAttributeModel;
pub use attribute::FieldType;
pub use attribute::TypeAttribute;
pub use attribute::spec_as_bool;
pub use attribute::spec_as_numeric_bound;
pub use attribute::spec_as_string;
pub use attribute::spec_parse_field_attrs;
pub use attribute::spec_parse_type_attrs;
pub use builder::BuildError;
pub use builder::BuildErrorKind;
pub use builder::ConstraintKind;
pub use builder::build_command;
pub use builder::data_matches_def;
pub use builder::def_valid;
pub use builder::option_matches_field;
pub use builder::options_match_fields;
pub use builder::spec_command_errors;
pub use channel::ChannelType;
pub use channel::spec_parse_channel_list;
pub use channel::spec_parse_channel_type;
pub use channel::ws_tokens;
pub use choice::ChoiceKind;
pub use choice::ChoiceValue;
pub use choice::ChoiceVariant;
pub use choice::CommandOptionChoice;
pub use choice::choice_eqv;
pub use choice::choice_kind_of;
pub use choice::choice_values_eq;
pub use choice::choice_values_equal;
pub use choice::from_literal;
pub use choice::lemma_choice_round_trip;
pub use choice::spec_choice_kind_of;
pub use choice::spec_from_literal;
pub use choice::spec_variant_choice;
pub use choice::to_choice_list;
pub use constraint::CommandOptionData;
pub use constraint::CommandOptionValue;
pub use decode::DecodeError;
pub use decode::DecodedCommand;
pub use decode::DecodedField;
pub use decode::DecodedValue;
pub use decode::decode;
pub use decode::decode_result_matches;
pub use decode::decoded_view;
pub use decode::option_type_of_kind;
pub use def::CommandDef;
pub use def::CommandOptionType;
pub use def::FieldDef;
pub use def::FieldKind;
pub use def::choices_wf;
pub use def::field_wf;
pub use def::fields_wf;
pub use def::is_subcommand_kind;
pub use def::kind_option_type;
pub use def::level_is_selection;
pub use def::names_unique;
pub use interaction::CommandDataOption;
pub use interaction::CommandInputData;
pub use interaction::OptionValue;
pub use interaction::ResolvedData;
pub use interaction::spec_value_tag;
pub use laws::lemma_accepts_iff;
pub use laws::lemma_build_decode_consistency;
pub use laws::lemma_optional_absence;
pub use laws::lemma_required_absence;
pub use laws::lemma_round_trip;
pub use laws::lemma_schema_consistency;
pub use laws::lemma_subcommand_selection;
pub use laws::satisfies;
pub use laws::schema_accepts;
pub use localization::DescLocalizations;
pub use localization::IntoLocalizationsInternal;
pub use localization::LocalizationsInternal;
pub use localization::NameLocalizations;
pub use schema::ApplicationCommandData;
pub use schema::CommandOptionExt;
pub use schema::CommandOptionExtInner;
pub use schema::CreateOptionBuilder;
pub use schema::CreateOptionData;
pub use schema::spec_command_as_option;
pub use semantics::DecodeErrorKind;
pub use semantics::DecodeErrorModel;
pub use semantics::DecodedFieldModel;
pub use semantics::DecodedModel;
pub use semantics::DecodedValueModel;
pub use semantics::accepts;
pub use semantics::spec_decode_level;
pub use text::char_len;
pub use text::str_eq;
