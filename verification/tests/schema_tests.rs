use twilight_interactions::{
    ApplicationCommandData, BuildError, BuildErrorKind, ChannelType, ChoiceKind, ChoiceValue,
    CommandDef, CommandOptionChoice, CommandOptionData, CommandOptionExt, CommandOptionExtInner,
    CommandOptionType, CommandOptionValue, ConstraintKind, FieldDef, FieldKind, build_command,
};

fn no_constraints() -> CommandOptionData {
    CommandOptionData {
        channel_types: None,
        max_value: None,
        min_value: None,
        max_length: None,
        min_length: None,
    }
}

fn scalar_field(name: &str, desc: &str, kind: FieldKind, optional: bool) -> FieldDef {
    FieldDef {
        name: name.to_string(),
        description: desc.to_string(),
        name_localizations: None,
        description_localizations: None,
        help: None,
        kind,
        optional,
        autocomplete: false,
        constraints: no_constraints(),
        choices: Vec::new(),
        children: Vec::new(),
    }
}

fn sub_field(name: &str, desc: &str, kind: FieldKind, children: Vec<FieldDef>) -> FieldDef {
    FieldDef {
        name: name.to_string(),
        description: desc.to_string(),
        name_localizations: None,
        description_localizations: None,
        help: None,
        kind,
        optional: false,
        autocomplete: false,
        constraints: no_constraints(),
        choices: Vec::new(),
        children,
    }
}

fn command_def(name: &str, desc: &str, fields: Vec<FieldDef>) -> CommandDef {
    CommandDef {
        name: name.to_string(),
        name_localizations: None,
        description: desc.to_string(),
        description_localizations: None,
        help: None,
        fields,
        default_member_permissions: None,
        dm_permission: None,
        nsfw: None,
        group: false,
    }
}

fn leaf_option(name: &str, desc: &str, kind: CommandOptionType, required: bool) -> CommandOptionExt {
    CommandOptionExt {
        inner: CommandOptionExtInner {
            autocomplete: Some(false),
            channel_types: None,
            choices: None,
            description: desc.to_string(),
            description_localizations: None,
            kind,
            max_length: None,
            max_value: None,
            min_length: None,
            min_value: None,
            name: name.to_string(),
            name_localizations: None,
            options: None,
            required: Some(required),
        },
        help: None,
    }
}

fn sub_option(
    name: &str,
    desc: &str,
    kind: CommandOptionType,
    options: Vec<CommandOptionExt>,
) -> CommandOptionExt {
    CommandOptionExt {
        inner: CommandOptionExtInner {
            autocomplete: Some(false),
            channel_types: None,
            choices: None,
            description: desc.to_string(),
            description_localizations: None,
            kind,
            max_length: None,
            max_value: None,
            min_length: None,
            min_value: None,
            name: name.to_string(),
            name_localizations: None,
            options: Some(options),
            required: None,
        },
        help: None,
    }
}

#[test]
fn test_create_command() {
    let mut member = scalar_field("member", "A member", FieldKind::User, false);
    member.help = Some("abc".to_string());
    let text = scalar_field("text", "Some text", FieldKind::String, false);
    let mut number = scalar_field("number", "A number", FieldKind::Number, false);
    number.autocomplete = true;
    number.constraints.max_value = Some(CommandOptionValue::Number(50.0f64.to_bits()));
    let mut channel = scalar_field("channel", "A text channel", FieldKind::Channel, true);
    channel.constraints.channel_types =
        Some(vec![ChannelType::GuildText, ChannelType::Private]);

    let mut def = command_def(
        "demo",
        "Demo command for testing purposes",
        vec![member, text, number, channel],
    );
    def.help = Some("more demo".to_string());

    let mut expected_member = leaf_option("member", "A member", CommandOptionType::User, true);
    expected_member.help = Some("abc".to_string());
    let expected_text = leaf_option("text", "Some text", CommandOptionType::String, true);
    let mut expected_number = leaf_option("number", "A number", CommandOptionType::Number, true);
    expected_number.inner.autocomplete = Some(true);
    expected_number.inner.max_value = Some(CommandOptionValue::Number(50.0f64.to_bits()));
    let mut expected_channel =
        leaf_option("channel", "A text channel", CommandOptionType::Channel, false);
    expected_channel.inner.channel_types =
        Some(vec![ChannelType::GuildText, ChannelType::Private]);

    let expected = ApplicationCommandData {
        name: "demo".to_string(),
        name_localizations: None,
        description: "Demo command for testing purposes".to_string(),
        description_localizations: None,
        help: Some("more demo".to_string()),
        options: vec![expected_member, expected_text, expected_number, expected_channel],
        dm_permission: None,
        default_member_permissions: None,
        group: false,
        nsfw: None,
    };

    assert_eq!(build_command(&def), Ok(expected));
    assert_eq!(def.name, "demo");
}

#[test]
fn test_unit_create_command() {
    let def = command_def("unit", "Unit command for testing purposes", Vec::new());

    let expected = ApplicationCommandData {
        name: "unit".to_string(),
        name_localizations: None,
        description: "Unit command for testing purposes".to_string(),
        description_localizations: None,
        help: None,
        options: Vec::new(),
        dm_permission: None,
        default_member_permissions: None,
        group: false,
        nsfw: None,
    };

    assert_eq!(build_command(&def), Ok(expected));
    assert_eq!(def.name, "unit");
}

#[test]
fn test_create_subcommand() {
    let one = sub_field(
        "one",
        "Command one",
        FieldKind::SubCommand,
        vec![scalar_field("option", "An option", FieldKind::String, false)],
    );
    let two = sub_field(
        "two",
        "Command two",
        FieldKind::SubCommand,
        vec![scalar_field("option", "An option", FieldKind::String, false)],
    );
    let three = sub_field(
        "three",
        "Command three",
        FieldKind::SubCommand,
        vec![scalar_field("option", "An option", FieldKind::String, false)],
    );
    let mut group = sub_field(
        "group",
        "Command group",
        FieldKind::SubCommandGroup,
        vec![two, three],
    );
    group.help = Some("Group help".to_string());

    let def = CommandDef {
        name: "command".to_string(),
        name_localizations: None,
        description: "fallback".to_string(),
        description_localizations: Some(vec![(
            "en".to_string(),
            "en description".to_string(),
        )]),
        help: None,
        fields: vec![one, group],
        default_member_permissions: Some(0),
        dm_permission: None,
        nsfw: None,
        group: true,
    };

    let expected_one = sub_option(
        "one",
        "Command one",
        CommandOptionType::SubCommand,
        vec![leaf_option("option", "An option", CommandOptionType::String, true)],
    );
    let expected_two = sub_option(
        "two",
        "Command two",
        CommandOptionType::SubCommand,
        vec![leaf_option("option", "An option", CommandOptionType::String, true)],
    );
    let expected_three = sub_option(
        "three",
        "Command three",
        CommandOptionType::SubCommand,
        vec![leaf_option("option", "An option", CommandOptionType::String, true)],
    );
    let mut expected_group = sub_option(
        "group",
        "Command group",
        CommandOptionType::SubCommandGroup,
        vec![expected_two, expected_three],
    );
    expected_group.help = Some("Group help".to_string());

    let expected = ApplicationCommandData {
        name: "command".to_string(),
        name_localizations: None,
        description: "fallback".to_string(),
        description_localizations: Some(vec![(
            "en".to_string(),
            "en description".to_string(),
        )]),
        help: None,
        options: vec![expected_one, expected_group],
        dm_permission: None,
        default_member_permissions: Some(0),
        group: true,
        nsfw: None,
    };

    assert_eq!(build_command(&def), Ok(expected));
}

#[test]
fn build_rejects_long_name() {
    let def = command_def(
        "a23456789012345678901234567890123",
        "desc",
        Vec::new(),
    );
    let errs = build_command(&def).unwrap_err();
    assert_eq!(
        errs,
        vec![BuildError {
            name: "a23456789012345678901234567890123".to_string(),
            kind: BuildErrorKind::NameTooLong,
        }]
    );
}

#[test]
fn build_rejects_empty_description_and_help() {
    let mut def = command_def("cmd", "", Vec::new());
    def.help = Some(String::new());
    let errs = build_command(&def).unwrap_err();
    assert_eq!(
        errs,
        vec![
            BuildError { name: "cmd".to_string(), kind: BuildErrorKind::DescriptionEmpty },
            BuildError { name: "cmd".to_string(), kind: BuildErrorKind::HelpEmpty },
        ]
    );
}

#[test]
fn build_rejects_wrong_constraint_pairing() {
    let mut field = scalar_field("text", "Some text", FieldKind::String, false);
    field.constraints.max_value = Some(CommandOptionValue::Integer(5));
    let def = command_def("cmd", "desc", vec![field]);
    let errs = build_command(&def).unwrap_err();
    assert_eq!(
        errs,
        vec![BuildError {
            name: "text".to_string(),
            kind: BuildErrorKind::WrongConstraint(ConstraintKind::MaxValue),
        }]
    );
}

#[test]
fn build_rejects_wrong_bound_kind() {
    let mut field = scalar_field("count", "A count", FieldKind::Integer, false);
    field.constraints.min_value = Some(CommandOptionValue::Number(1.5f64.to_bits()));
    let def = command_def("cmd", "desc", vec![field]);
    let errs = build_command(&def).unwrap_err();
    assert_eq!(
        errs,
        vec![BuildError {
            name: "count".to_string(),
            kind: BuildErrorKind::WrongBoundKind(ConstraintKind::MinValue),
        }]
    );
}

#[test]
fn build_rejects_autocomplete_on_boolean() {
    let mut field = scalar_field("flag", "A flag", FieldKind::Boolean, false);
    field.autocomplete = true;
    let def = command_def("cmd", "desc", vec![field]);
    let errs = build_command(&def).unwrap_err();
    assert_eq!(
        errs,
        vec![BuildError {
            name: "flag".to_string(),
            kind: BuildErrorKind::AutocompleteNotAllowed,
        }]
    );
}

#[test]
fn build_rejects_duplicate_field_names() {
    let a = scalar_field("same", "First", FieldKind::String, false);
    let b = scalar_field("same", "Second", FieldKind::Integer, false);
    let def = command_def("cmd", "desc", vec![a, b]);
    let errs = build_command(&def).unwrap_err();
    assert_eq!(
        errs,
        vec![BuildError {
            name: "same".to_string(),
            kind: BuildErrorKind::DuplicateFieldName,
        }]
    );
}

#[test]
fn build_rejects_mixed_siblings() {
    let scalar = scalar_field("text", "Some text", FieldKind::String, false);
    let sub = sub_field(
        "one",
        "Command one",
        FieldKind::SubCommand,
        vec![scalar_field("option", "An option", FieldKind::String, false)],
    );
    let def = command_def("cmd", "desc", vec![scalar, sub]);
    let errs = build_command(&def).unwrap_err();
    assert_eq!(
        errs,
        vec![BuildError {
            name: "text".to_string(),
            kind: BuildErrorKind::MisplacedField,
        }]
    );
}

#[test]
fn build_rejects_optional_subcommand() {
    let mut sub = sub_field(
        "one",
        "Command one",
        FieldKind::SubCommand,
        vec![scalar_field("option", "An option", FieldKind::String, false)],
    );
    sub.optional = true;
    let def = command_def("cmd", "desc", vec![sub]);
    let errs = build_command(&def).unwrap_err();
    assert_eq!(
        errs,
        vec![BuildError {
            name: "one".to_string(),
            kind: BuildErrorKind::OptionalSubCommand,
        }]
    );
}

#[test]
fn build_rejects_scalar_with_children() {
    let mut field = scalar_field("text", "Some text", FieldKind::String, false);
    field.children = vec![scalar_field("inner", "Inner", FieldKind::String, false)];
    let def = command_def("cmd", "desc", vec![field]);
    let errs = build_command(&def).unwrap_err();
    assert_eq!(
        errs,
        vec![BuildError {
            name: "text".to_string(),
            kind: BuildErrorKind::ScalarWithChildren,
        }]
    );
}

#[test]
fn build_rejects_empty_name_and_long_description() {
    let long_desc = "d".repeat(101);
    let def = command_def("", &long_desc, Vec::new());
    let errs = build_command(&def).unwrap_err();
    assert_eq!(
        errs,
        vec![
            BuildError { name: String::new(), kind: BuildErrorKind::NameEmpty },
            BuildError { name: String::new(), kind: BuildErrorKind::DescriptionTooLong },
        ]
    );
}

#[test]
fn build_rejects_bad_choice_lists() {
    let mut unit = scalar_field(
        "unit",
        "A unit",
        FieldKind::ChoiceEnum(ChoiceKind::Integer),
        false,
    );
    unit.choices = vec![
        CommandOptionChoice {
            name: "Minute".to_string(),
            name_localizations: None,
            value: ChoiceValue::Int(60),
        },
        CommandOptionChoice {
            name: "Minute".to_string(),
            name_localizations: None,
            value: ChoiceValue::Int(60),
        },
        CommandOptionChoice {
            name: "Stray".to_string(),
            name_localizations: None,
            value: ChoiceValue::String("oops".to_string()),
        },
    ];
    let def = command_def("cmd", "desc", vec![unit]);
    let errs = build_command(&def).unwrap_err();
    assert_eq!(
        errs,
        vec![
            BuildError {
                name: "unit".to_string(),
                kind: BuildErrorKind::DuplicateChoiceName("Minute".to_string()),
            },
            BuildError {
                name: "unit".to_string(),
                kind: BuildErrorKind::DuplicateChoiceValue("Minute".to_string()),
            },
            BuildError {
                name: "unit".to_string(),
                kind: BuildErrorKind::WrongChoiceKind("Stray".to_string()),
            },
        ]
    );
}

#[test]
fn build_rejects_choices_on_plain_field() {
    let mut field = scalar_field("text", "Some text", FieldKind::String, false);
    field.choices = vec![CommandOptionChoice {
        name: "A".to_string(),
        name_localizations: None,
        value: ChoiceValue::String("a".to_string()),
    }];
    let def = command_def("cmd", "desc", vec![field]);
    let errs = build_command(&def).unwrap_err();
    assert_eq!(
        errs,
        vec![BuildError {
            name: "text".to_string(),
            kind: BuildErrorKind::WrongConstraint(ConstraintKind::Choices),
        }]
    );
}

#[test]
fn build_choice_command_carries_choices() {
    let mut unit = scalar_field(
        "unit",
        "A unit",
        FieldKind::ChoiceEnum(ChoiceKind::Integer),
        false,
    );
    unit.choices = vec![
        CommandOptionChoice {
            name: "Minute".to_string(),
            name_localizations: None,
            value: ChoiceValue::Int(60),
        },
        CommandOptionChoice {
            name: "Hour".to_string(),
            name_localizations: None,
            value: ChoiceValue::Int(3600),
        },
    ];
    let def = command_def("cmd", "desc", vec![unit]);
    let data = build_command(&def).unwrap();
    let built = &data.options[0];
    assert_eq!(built.inner.kind, CommandOptionType::Integer);
    let choices = built.inner.choices.as_ref().unwrap();
    assert_eq!(choices.len(), 2);
    assert_eq!(choices[0].name, "Minute");
    assert_eq!(choices[0].value, ChoiceValue::Int(60));
    assert_eq!(choices[1].name, "Hour");
    assert_eq!(choices[1].value, ChoiceValue::Int(3600));
}
