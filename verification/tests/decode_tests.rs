use twilight_interactions::{
    ChoiceKind, ChoiceValue, CommandDataOption, CommandDef, CommandInputData,
    CommandOptionChoice, CommandOptionData, CommandOptionType, DecodeError, DecodeErrorKind,
    DecodedCommand, DecodedField, DecodedValue, FieldDef, FieldKind, OptionValue, decode,
};

fn no_constraints() -> CommandOptionData {
    CommandOptionData {
        channel_types: None,
        max_value: None,
        min_value: None,
        max_length: None,
        min_length: None,
    }
}

fn scalar_field(name: &str, desc: &str, kind: FieldKind, optional: bool) -> FieldDef {
    FieldDef {
        name: name.to_string(),
        description: desc.to_string(),
        name_localizations: None,
        description_localizations: None,
        help: None,
        kind,
        optional,
        autocomplete: false,
        constraints: no_constraints(),
        choices: Vec::new(),
        children: Vec::new(),
    }
}

fn sub_field(name: &str, desc: &str, kind: FieldKind, children: Vec<FieldDef>) -> FieldDef {
    FieldDef {
        name: name.to_string(),
        description: desc.to_string(),
        name_localizations: None,
        description_localizations: None,
        help: None,
        kind,
        optional: false,
        autocomplete: false,
        constraints: no_constraints(),
        choices: Vec::new(),
        children,
    }
}

fn opt(name: &str, value: OptionValue) -> CommandDataOption {
    CommandDataOption { name: name.to_string(), value }
}

fn set_field(name: &str, value: DecodedValue) -> DecodedField {
    DecodedField { name: name.to_string(), value: Some(value) }
}

fn absent_field(name: &str) -> DecodedField {
    DecodedField { name: name.to_string(), value: None }
}

fn err(path: &[&str], kind: DecodeErrorKind) -> DecodeError {
    DecodeError {
        path: path.iter().map(|s| s.to_string()).collect(),
        kind,
    }
}

fn subcommand_def() -> Vec<FieldDef> {
    let one = sub_field(
        "one",
        "Command one",
        FieldKind::SubCommand,
        vec![scalar_field("option", "An option", FieldKind::String, false)],
    );
    let two = sub_field(
        "two",
        "Command two",
        FieldKind::SubCommand,
        vec![scalar_field("option", "An option", FieldKind::String, false)],
    );
    let three = sub_field(
        "three",
        "Command three",
        FieldKind::SubCommand,
        vec![scalar_field("option", "An option", FieldKind::String, false)],
    );
    let group = sub_field(
        "group",
        "Command group",
        FieldKind::SubCommandGroup,
        vec![two, three],
    );
    vec![one, group]
}

#[test]
fn test_subcommand_model() {
    let fields = subcommand_def();

    let subcommand_options = vec![opt(
        "option",
        OptionValue::String("test".to_string()),
    )];
    let command_options = vec![opt("one", OptionValue::SubCommand(subcommand_options))];

    let data = CommandInputData { options: command_options, resolved: None };

    let def = CommandDef {
        name: "command".to_string(),
        name_localizations: None,
        description: "A command".to_string(),
        description_localizations: None,
        help: None,
        fields,
        default_member_permissions: None,
        dm_permission: None,
        nsfw: None,
        group: true,
    };
    let result = def.from_interaction(&data).unwrap();

    assert_eq!(
        DecodedCommand::Variant(
            "one".to_string(),
            0,
            Box::new(DecodedCommand::Fields(vec![set_field(
                "option",
                DecodedValue::String("test".to_string()),
            )])),
        ),
        result
    );
}

#[test]
fn test_subcommand_group_model() {
    let fields = subcommand_def();

    let subcommand_options = vec![opt(
        "option",
        OptionValue::String("test".to_string()),
    )];
    let subcommand_group_options =
        vec![opt("three", OptionValue::SubCommand(subcommand_options))];
    let command_options = vec![opt(
        "group",
        OptionValue::SubCommandGroup(subcommand_group_options),
    )];

    let data = CommandInputData { options: command_options, resolved: None };

    let def = CommandDef {
        name: "command".to_string(),
        name_localizations: None,
        description: "A command".to_string(),
        description_localizations: None,
        help: None,
        fields,
        default_member_permissions: None,
        dm_permission: None,
        nsfw: None,
        group: true,
    };
    let result = def.from_interaction(&data).unwrap();

    assert_eq!(
        DecodedCommand::Variant(
            "group".to_string(),
            1,
            Box::new(DecodedCommand::Variant(
                "three".to_string(),
                1,
                Box::new(DecodedCommand::Fields(vec![set_field(
                    "option",
                    DecodedValue::String("test".to_string()),
                )])),
            )),
        ),
        result
    );
}

#[test]
fn demo_decode_sets_present_fields() {
    let member = scalar_field("member", "A member", FieldKind::User, false);
    let text = scalar_field("text", "Some text", FieldKind::String, false);
    let mut number = scalar_field("number", "A number", FieldKind::Number, false);
    number.constraints.max_value =
        Some(twilight_interactions::CommandOptionValue::Number(50.0f64.to_bits()));
    let mut channel = scalar_field("channel", "A text channel", FieldKind::Channel, true);
    channel.constraints.channel_types = Some(vec![
        twilight_interactions::ChannelType::GuildText,
        twilight_interactions::ChannelType::Private,
    ]);
    let fields = vec![member, text, number, channel];

    let options = vec![
        opt("member", OptionValue::User(1)),
        opt("text", OptionValue::String("hi".to_string())),
        opt("number", OptionValue::Number(12.5f64.to_bits())),
    ];

    let result = decode(&fields, &options).unwrap();
    assert_eq!(
        result,
        DecodedCommand::Fields(vec![
            set_field("member", DecodedValue::User(1)),
            set_field("text", DecodedValue::String("hi".to_string())),
            set_field("number", DecodedValue::Number(12.5f64.to_bits())),
            absent_field("channel"),
        ])
    );
}

#[test]
fn demo_decode_rejects_wrong_kind() {
    let member = scalar_field("member", "A member", FieldKind::User, false);
    let text = scalar_field("text", "Some text", FieldKind::String, false);
    let number = scalar_field("number", "A number", FieldKind::Number, false);
    let channel = scalar_field("channel", "A text channel", FieldKind::Channel, true);
    let fields = vec![member, text, number, channel];

    let options = vec![
        opt("member", OptionValue::User(1)),
        opt("text", OptionValue::String("hi".to_string())),
        opt("number", OptionValue::String("12.5".to_string())),
    ];

    assert_eq!(
        decode(&fields, &options),
        Err(err(
            &["number"],
            DecodeErrorKind::WrongKind {
                expected: CommandOptionType::Number,
                found: CommandOptionType::String,
            },
        ))
    );
}

#[test]
fn nested_group_decodes_selected_variant() {
    let fields = subcommand_def();
    let options = vec![opt(
        "group",
        OptionValue::SubCommandGroup(vec![opt(
            "two",
            OptionValue::SubCommand(vec![opt(
                "option",
                OptionValue::String("test".to_string()),
            )]),
        )]),
    )];

    let result = decode(&fields, &options).unwrap();
    assert_eq!(
        result,
        DecodedCommand::Variant(
            "group".to_string(),
            1,
            Box::new(DecodedCommand::Variant(
                "two".to_string(),
                0,
                Box::new(DecodedCommand::Fields(vec![set_field(
                    "option",
                    DecodedValue::String("test".to_string()),
                )])),
            )),
        )
    );
}

#[test]
fn nested_group_rejects_unknown_child() {
    let fields = subcommand_def();
    let options = vec![opt(
        "group",
        OptionValue::SubCommandGroup(vec![opt(
            "four",
            OptionValue::SubCommand(vec![opt(
                "option",
                OptionValue::String("test".to_string()),
            )]),
        )]),
    )];

    assert_eq!(
        decode(&fields, &options),
        Err(err(&["group", "four"], DecodeErrorKind::UnknownField))
    );
}

#[test]
fn decode_rejects_missing_required() {
    let fields = vec![
        scalar_field("text", "Some text", FieldKind::String, false),
        scalar_field("flag", "A flag", FieldKind::Boolean, true),
    ];
    let options = vec![opt("flag", OptionValue::Boolean(true))];
    assert_eq!(
        decode(&fields, &options),
        Err(err(&["text"], DecodeErrorKind::MissingRequired))
    );
}

#[test]
fn decode_allows_absent_optional() {
    let fields = vec![
        scalar_field("text", "Some text", FieldKind::String, false),
        scalar_field("flag", "A flag", FieldKind::Boolean, true),
    ];
    let with_flag = vec![
        opt("text", OptionValue::String("hi".to_string())),
        opt("flag", OptionValue::Boolean(true)),
    ];
    let without_flag = vec![opt("text", OptionValue::String("hi".to_string()))];
    assert!(decode(&fields, &with_flag).is_ok());
    assert!(decode(&fields, &without_flag).is_ok());
    assert_eq!(
        decode(&fields, &without_flag).unwrap(),
        DecodedCommand::Fields(vec![
            set_field("text", DecodedValue::String("hi".to_string())),
            absent_field("flag"),
        ])
    );
}

#[test]
fn decode_rejects_unknown_field() {
    let fields = vec![scalar_field("text", "Some text", FieldKind::String, false)];
    let options = vec![
        opt("text", OptionValue::String("hi".to_string())),
        opt("extra", OptionValue::Integer(1)),
    ];
    assert_eq!(
        decode(&fields, &options),
        Err(err(&["extra"], DecodeErrorKind::UnknownField))
    );
}

#[test]
fn decode_rejects_duplicate_names() {
    let fields = vec![scalar_field("text", "Some text", FieldKind::String, false)];
    let options = vec![
        opt("text", OptionValue::String("hi".to_string())),
        opt("text", OptionValue::String("again".to_string())),
    ];
    assert_eq!(
        decode(&fields, &options),
        Err(err(&["text"], DecodeErrorKind::DuplicateField))
    );
}

#[test]
fn decode_rejects_empty_selection() {
    let fields = subcommand_def();
    assert_eq!(
        decode(&fields, &Vec::new()),
        Err(err(&[], DecodeErrorKind::NoSelection))
    );
}

#[test]
fn decode_rejects_double_selection() {
    let fields = subcommand_def();
    let one = opt(
        "one",
        OptionValue::SubCommand(vec![opt(
            "option",
            OptionValue::String("a".to_string()),
        )]),
    );
    let group = opt(
        "group",
        OptionValue::SubCommandGroup(vec![opt(
            "two",
            OptionValue::SubCommand(vec![opt(
                "option",
                OptionValue::String("b".to_string()),
            )]),
        )]),
    );
    assert_eq!(
        decode(&fields, &vec![one, group]),
        Err(err(&[], DecodeErrorKind::MultipleSelection))
    );
}

#[test]
fn decode_rejects_unknown_choice() {
    let mut unit = scalar_field(
        "unit",
        "A time unit",
        FieldKind::ChoiceEnum(ChoiceKind::Integer),
        false,
    );
    unit.choices = vec![
        CommandOptionChoice {
            name: "Minute".to_string(),
            name_localizations: None,
            value: ChoiceValue::Int(60),
        },
        CommandOptionChoice {
            name: "Hour".to_string(),
            name_localizations: None,
            value: ChoiceValue::Int(3600),
        },
    ];
    let fields = vec![unit];

    let good = vec![opt("unit", OptionValue::Integer(3600))];
    assert_eq!(
        decode(&fields, &good).unwrap(),
        DecodedCommand::Fields(vec![set_field("unit", DecodedValue::Choice(1))])
    );

    let bad = vec![opt("unit", OptionValue::Integer(61))];
    assert_eq!(
        decode(&fields, &bad),
        Err(err(&["unit"], DecodeErrorKind::UnknownChoice))
    );
}

#[test]
fn decode_accepts_generic_id_as_mentionable() {
    let fields = vec![scalar_field("target", "A target", FieldKind::GenericId, false)];
    let options = vec![opt("target", OptionValue::Mentionable(42))];
    assert_eq!(
        decode(&fields, &options).unwrap(),
        DecodedCommand::Fields(vec![set_field("target", DecodedValue::Mentionable(42))])
    );
}

#[test]
fn resolved_data_lookup() {
    let resolved = twilight_interactions::ResolvedData {
        users: vec![1, 2],
        channels: vec![7],
        roles: Vec::new(),
        attachments: vec![9],
    };
    assert!(resolved.has_user(1));
    assert!(!resolved.has_user(3));
    assert!(resolved.has_channel(7));
    assert!(!resolved.has_role(1));
    assert!(resolved.has_attachment(9));
}

#[test]
fn schema_and_decoder_agree_on_demo_command() {
    let member = scalar_field("member", "A member", FieldKind::User, false);
    let text = scalar_field("text", "Some text", FieldKind::String, false);
    let channel = scalar_field("channel", "A text channel", FieldKind::Channel, true);
    let fields = vec![member, text, channel];
    let def = CommandDef {
        name: "demo".to_string(),
        name_localizations: None,
        description: "Demo command".to_string(),
        description_localizations: None,
        help: None,
        fields,
        default_member_permissions: None,
        dm_permission: None,
        nsfw: None,
        group: false,
    };
    let data = twilight_interactions::build_command(&def).unwrap();

    // The registered shape: two required fields, one optional one.
    assert_eq!(data.options[0].inner.required, Some(true));
    assert_eq!(data.options[1].inner.required, Some(true));
    assert_eq!(data.options[2].inner.required, Some(false));

    // A tree with exactly the required fields is accepted.
    let matching = vec![
        opt("member", OptionValue::User(5)),
        opt("text", OptionValue::String("hi".to_string())),
    ];
    assert!(decode(&def.fields, &matching).is_ok());

    // A tree naming a field the schema never registered is rejected.
    let extra = vec![
        opt("member", OptionValue::User(5)),
        opt("text", OptionValue::String("hi".to_string())),
        opt("voice", OptionValue::Channel(9)),
    ];
    assert_eq!(
        decode(&def.fields, &extra),
        Err(err(&["voice"], DecodeErrorKind::UnknownField))
    );

    // A tree missing a registered required field is rejected.
    let missing = vec![opt("member", OptionValue::User(5))];
    assert_eq!(
        decode(&def.fields, &missing),
        Err(err(&["text"], DecodeErrorKind::MissingRequired))
    );
}
