use twilight_interactions::{
    AttrError, AttrErrorKind, AttrValue, ChannelType, ChoiceValue, ChoiceVariant,
    CommandOptionValue, DescLocalizations, FieldAttribute, FieldDef, FieldKind, FieldType,
    IntoLocalizationsInternal, NameLocalizations, TypeAttribute, char_len, from_literal, str_eq,
    to_choice_list,
};

fn variant(ident: &str, name: &str, value: ChoiceValue) -> ChoiceVariant {
    ChoiceVariant {
        ident: ident.to_string(),
        name: name.to_string(),
        name_localizations: None,
        value,
    }
}

fn time_units() -> Vec<ChoiceVariant> {
    vec![
        variant("Minute", "Minute", ChoiceValue::Int(60)),
        variant("Hour", "Hour", ChoiceValue::Int(3600)),
        variant("Day", "Day", ChoiceValue::Int(86400)),
    ]
}

#[test]
fn choice_list_preserves_order() {
    let variants = time_units();
    let list = to_choice_list(&variants);
    assert_eq!(list.len(), 3);
    assert_eq!(list[0].name, "Minute");
    assert_eq!(list[0].value, ChoiceValue::Int(60));
    assert_eq!(list[1].name, "Hour");
    assert_eq!(list[1].value, ChoiceValue::Int(3600));
    assert_eq!(list[2].name, "Day");
    assert_eq!(list[2].value, ChoiceValue::Int(86400));
}

#[test]
fn choice_round_trip_selects_each_variant() {
    let variants = time_units();
    let list = to_choice_list(&variants);
    for i in 0..list.len() {
        assert_eq!(from_literal(&list[i].value, &variants), Some(i));
    }
}

#[test]
fn choice_round_trip_on_strings_and_numbers() {
    let variants = vec![
        variant("Cat", "A cat", ChoiceValue::String("cat".to_string())),
        variant("Dog", "A dog", ChoiceValue::String("dog".to_string())),
        variant("Pi", "Pi", ChoiceValue::Number(3.25f64.to_bits())),
    ];
    let list = to_choice_list(&variants);
    for i in 0..list.len() {
        assert_eq!(from_literal(&list[i].value, &variants), Some(i));
    }
    assert_eq!(
        from_literal(&ChoiceValue::String("bird".to_string()), &variants),
        None
    );
    assert_eq!(from_literal(&ChoiceValue::Int(3), &variants), None);
}

#[test]
fn channel_type_parses_keywords() {
    assert_eq!(ChannelType::parse("guild_text"), Some(ChannelType::GuildText));
    assert_eq!(ChannelType::parse("private"), Some(ChannelType::Private));
    assert_eq!(
        ChannelType::parse("guild_stage_voice"),
        Some(ChannelType::GuildStageVoice)
    );
    assert_eq!(ChannelType::parse("guildtext"), None);
    assert_eq!(ChannelType::parse(""), None);
}

#[test]
fn channel_type_parses_keyword_lists() {
    assert_eq!(
        ChannelType::parse_attr("guild_text private"),
        Ok(vec![ChannelType::GuildText, ChannelType::Private])
    );
    assert_eq!(
        ChannelType::parse_attr("  guild_voice \t group\n"),
        Ok(vec![ChannelType::GuildVoice, ChannelType::Group])
    );
    assert_eq!(ChannelType::parse_attr(""), Ok(Vec::new()));
    assert_eq!(
        ChannelType::parse_attr("guild_text bogus private"),
        Err("bogus".to_string())
    );
}

#[test]
fn attr_value_conversions() {
    let field = "demo".to_string();
    let attribute = "desc".to_string();
    assert_eq!(
        AttrValue::String("hello".to_string()).as_string(&field, &attribute),
        Ok("hello".to_string())
    );
    assert_eq!(
        AttrValue::String(String::new()).as_string(&field, &attribute),
        Err(AttrError {
            field: field.clone(),
            attribute: attribute.clone(),
            kind: AttrErrorKind::EmptyString,
        })
    );
    assert_eq!(
        AttrValue::Int(5).as_string(&field, &attribute),
        Err(AttrError {
            field: field.clone(),
            attribute: attribute.clone(),
            kind: AttrErrorKind::ExpectedString,
        })
    );
    assert_eq!(AttrValue::Bool(true).as_bool(&field, &attribute), Ok(true));
    assert_eq!(
        AttrValue::String("yes".to_string()).as_bool(&field, &attribute),
        Err(AttrError {
            field: field.clone(),
            attribute: attribute.clone(),
            kind: AttrErrorKind::ExpectedBool,
        })
    );
    assert_eq!(
        AttrValue::Int(50).as_numeric_bound(&field, &attribute),
        Ok(CommandOptionValue::Integer(50))
    );
    assert_eq!(
        AttrValue::Number(50.0f64.to_bits()).as_numeric_bound(&field, &attribute),
        Ok(CommandOptionValue::Number(50.0f64.to_bits()))
    );
    assert_eq!(
        AttrValue::String("50".to_string()).as_numeric_bound(&field, &attribute),
        Err(AttrError {
            field,
            attribute,
            kind: AttrErrorKind::ExpectedNumeric,
        })
    );
}

#[test]
fn type_attribute_parses_pairs() {
    let field = "demo".to_string();
    let pairs = vec![
        ("name".to_string(), AttrValue::String("demo".to_string())),
        ("desc".to_string(), AttrValue::String("A demo".to_string())),
        ("default_permission".to_string(), AttrValue::Bool(false)),
    ];
    assert_eq!(
        TypeAttribute::parse(&field, &pairs),
        Ok(TypeAttribute {
            name: Some("demo".to_string()),
            desc: Some("A demo".to_string()),
            help: None,
            default_permission: false,
        })
    );
}

#[test]
fn type_attribute_defaults_permission() {
    let field = "demo".to_string();
    let pairs = vec![("name".to_string(), AttrValue::String("demo".to_string()))];
    let parsed = TypeAttribute::parse(&field, &pairs).unwrap();
    assert!(parsed.default_permission);
    assert_eq!(parsed.desc, None);
}

#[test]
fn type_attribute_rejects_unknown_key() {
    let field = "demo".to_string();
    let pairs = vec![
        ("name".to_string(), AttrValue::String("demo".to_string())),
        ("rename".to_string(), AttrValue::String("other".to_string())),
    ];
    assert_eq!(
        TypeAttribute::parse(&field, &pairs),
        Err(AttrError {
            field,
            attribute: "rename".to_string(),
            kind: AttrErrorKind::UnknownAttribute,
        })
    );
}

#[test]
fn field_attribute_parses_pairs() {
    let field = "channel".to_string();
    let pairs = vec![
        ("rename".to_string(), AttrValue::String("chan".to_string())),
        ("desc".to_string(), AttrValue::String("A channel".to_string())),
        ("autocomplete".to_string(), AttrValue::Bool(true)),
        (
            "channel_types".to_string(),
            AttrValue::String("guild_text private".to_string()),
        ),
        ("max_value".to_string(), AttrValue::Int(9)),
    ];
    let parsed = FieldAttribute::parse(&field, &pairs).unwrap();
    assert_eq!(parsed.rename, Some("chan".to_string()));
    assert_eq!(parsed.desc, Some("A channel".to_string()));
    assert_eq!(parsed.help, None);
    assert!(parsed.autocomplete);
    assert_eq!(
        parsed.channel_types,
        vec![ChannelType::GuildText, ChannelType::Private]
    );
    assert_eq!(parsed.max_value, Some(CommandOptionValue::Integer(9)));
    assert_eq!(parsed.min_value, None);
}

#[test]
fn field_attribute_rejects_bad_channel_list() {
    let field = "channel".to_string();
    let pairs = vec![(
        "channel_types".to_string(),
        AttrValue::String("guild_text nonsense".to_string()),
    )];
    assert_eq!(
        FieldAttribute::parse(&field, &pairs),
        Err(AttrError {
            field,
            attribute: "channel_types".to_string(),
            kind: AttrErrorKind::InvalidChannelType,
        })
    );
}

#[test]
fn field_attribute_name_default() {
    let field = "user".to_string();
    let pairs = vec![("rename".to_string(), AttrValue::String("member".to_string()))];
    let parsed = FieldAttribute::parse(&field, &pairs).unwrap();
    assert_eq!(parsed.name_default("user".to_string()), "member");

    let bare = FieldAttribute::parse(&field, &Vec::new()).unwrap();
    assert_eq!(bare.name_default("user".to_string()), "user");
}

#[test]
fn field_type_required() {
    assert!(FieldType::Required.required());
    assert!(!FieldType::Optional.required());
}

#[test]
fn localizations_conversions() {
    let desc = DescLocalizations {
        fallback: "fallback".to_string(),
        localizations: vec![("en".to_string(), "en description".to_string())],
    };
    let internal = desc.into_localizations();
    assert_eq!(internal.fallback, "fallback");
    assert_eq!(
        internal.localizations,
        Some(vec![("en".to_string(), "en description".to_string())])
    );

    let named = (
        "name".to_string(),
        Some(NameLocalizations {
            localizations: vec![("fr".to_string(), "nom".to_string())],
        }),
    );
    let internal = named.into_localizations();
    assert_eq!(internal.fallback, "name");
    assert_eq!(
        internal.localizations,
        Some(vec![("fr".to_string(), "nom".to_string())])
    );

    let plain = "bare".to_string().into_localizations();
    assert_eq!(plain.fallback, "bare");
    assert_eq!(plain.localizations, None);
}

#[test]
fn string_helpers() {
    assert!(str_eq("abc", "abc"));
    assert!(!str_eq("abc", "abd"));
    assert!(!str_eq("abc", "ab"));
    assert_eq!(char_len("hello"), 5);
    assert_eq!(char_len(""), 0);
}

#[test]
fn field_def_from_attribute_applies_overrides() {
    let pairs = vec![
        ("rename".to_string(), AttrValue::String("member".to_string())),
        ("desc".to_string(), AttrValue::String("A member".to_string())),
        ("help".to_string(), AttrValue::String("abc".to_string())),
    ];
    let attrs = FieldAttribute::parse(&"user".to_string(), &pairs).unwrap();
    let field = FieldDef::from_attribute(
        "user".to_string(),
        FieldKind::User,
        FieldType::Required,
        "This should be overwritten".to_string(),
        attrs,
        Vec::new(),
        Vec::new(),
    );
    assert_eq!(field.name, "member");
    assert_eq!(field.description, "A member");
    assert_eq!(field.help, Some("abc".to_string()));
    assert!(!field.optional);
    assert_eq!(field.constraints.channel_types, None);
}

#[test]
fn field_def_from_attribute_uses_defaults() {
    let attrs = FieldAttribute::parse(&"channel".to_string(), &vec![(
        "channel_types".to_string(),
        AttrValue::String("guild_text private".to_string()),
    )])
    .unwrap();
    let field = FieldDef::from_attribute(
        "channel".to_string(),
        FieldKind::Channel,
        FieldType::Optional,
        "A text channel".to_string(),
        attrs,
        Vec::new(),
        Vec::new(),
    );
    assert_eq!(field.name, "channel");
    assert_eq!(field.description, "A text channel");
    assert!(field.optional);
    assert_eq!(
        field.constraints.channel_types,
        Some(vec![ChannelType::GuildText, ChannelType::Private])
    );
}
