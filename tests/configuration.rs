use redoc_try_it_out::{
    numeral_of, parse_numeral, Arrow, AuthBtnOptions, Breakpoints, Code, Colors, Configuration,
    DependenciesVersions, Expected, GroupItems, Headings, Level1Items, Links, Logo, Menu,
    RedocOptions, RedocTryItOutOptions, RightPanel, Spacing, ThemeOptions, TryBtnOptions,
    Typography, Value,
};

fn text(s: &str) -> Value {
    Value::Text(s.to_string())
}

fn num(s: &str) -> Value {
    Value::Number(s.to_string())
}

fn obj(entries: Vec<(&str, Value)>) -> Value {
    Value::Object(entries.into_iter().map(|(k, v)| (k.to_string(), v)).collect())
}

fn entries(v: &Value) -> &Vec<(String, Value)> {
    match v {
        Value::Object(e) => e,
        _ => panic!("not an object"),
    }
}

fn path(e: &redoc_try_it_out::ConfigError) -> Vec<&str> {
    e.path.iter().map(|s| s.as_str()).collect()
}

#[test]
fn empty_payload_takes_defaults() {
    let c = Configuration::parse(&obj(vec![])).unwrap();
    assert_eq!(c.bootstrap.redoc_version, "2.1.3");
    assert_eq!(c.bootstrap.container_id, "redoc-container");
    assert!(c.bootstrap.try_it_out_enabled);
    assert_eq!(c.bootstrap.try_it_box_container_id, "try-out-wrapper");
    assert_eq!(c.bootstrap.operation_box_selector, "[data-section-id]");
    assert_eq!(c.bootstrap.selected_operation_class, "try");
    assert_eq!(c.bootstrap.dependencies_versions.jquery, "3.5.1");
    assert_eq!(c.bootstrap.dependencies_versions.jquery_scroll_to, "2.1.3");
    assert_eq!(c.bootstrap.auth_btn, AuthBtnOptions::default());
    assert_eq!(c.bootstrap.try_btn, TryBtnOptions::default());
    assert_eq!(c.bootstrap, RedocTryItOutOptions::default());
    assert_eq!(c.renderer.theme, None);
    assert_eq!(c.renderer.disable_search, None);
}

#[test]
fn partial_dependencies_keep_defaults() {
    let payload = obj(vec![
        ("containerId", text("custom-redoc-container")),
        ("dependenciesVersions", obj(vec![("jqueryScrollTo", text("4.4.4"))])),
    ]);
    let c = Configuration::parse(&payload).unwrap();
    assert_eq!(c.bootstrap.container_id, "custom-redoc-container");
    assert_eq!(c.bootstrap.dependencies_versions.jquery, "3.5.1");
    assert_eq!(c.bootstrap.dependencies_versions.jquery_scroll_to, "4.4.4");
}

#[test]
fn test_try_it_out_options_from_json() {
    let payload = obj(vec![
        ("redocVersion", text("9.9.9")),
        ("tryItOutEnabled", Value::Bool(true)),
        ("containerId", text("custom-redoc-container")),
        ("dependenciesVersions", obj(vec![("jqueryScrollTo", text("4.4.4"))])),
        (
            "authBtn",
            obj(vec![
                ("posSelector", text("#redoc-container")),
                ("text", text("Authorize")),
                ("className", text("auth-btn")),
            ]),
        ),
        (
            "tryBtn",
            obj(vec![
                ("text", text("Try it out")),
                ("className", text("try-btn")),
                ("selectedClassName", text("try-btn-selected")),
            ]),
        ),
    ]);
    let expected = RedocTryItOutOptions {
        redoc_version: "9.9.9".to_string(),
        try_it_out_enabled: true,
        try_it_box_container_id: "try-out-wrapper".to_string(),
        container_id: "custom-redoc-container".to_string(),
        operation_box_selector: "[data-section-id]".to_string(),
        selected_operation_class: "try".to_string(),
        dependencies_versions: DependenciesVersions {
            jquery: "3.5.1".to_string(),
            jquery_scroll_to: "4.4.4".to_string(),
        },
        auth_btn: AuthBtnOptions {
            pos_selector: Some("#redoc-container".to_string()),
            text: Some("Authorize".to_string()),
            class_name: Some("auth-btn".to_string()),
        },
        try_btn: TryBtnOptions {
            sibling_selector: None,
            text: Some("Try it out".to_string()),
            class_name: Some("try-btn".to_string()),
            selected_class_name: Some("try-btn-selected".to_string()),
        },
    };
    let actual = RedocTryItOutOptions::from_entries(entries(&payload)).unwrap();
    assert_eq!(expected, actual);
}

#[test]
fn test_auth_btn_options_from_json() {
    let payload = obj(vec![
        ("posSelector", text("#redoc-container")),
        ("text", text("Authorize")),
        ("className", text("auth-btn")),
    ]);
    let expected = AuthBtnOptions {
        pos_selector: Some("#redoc-container".to_string()),
        text: Some("Authorize".to_string()),
        class_name: Some("auth-btn".to_string()),
    };
    assert_eq!(AuthBtnOptions::from_entries(entries(&payload)).unwrap(), expected);
}

#[test]
fn wrong_kind_names_the_field() {
    let payload = obj(vec![("containerId", Value::Bool(true))]);
    let e = Configuration::parse(&payload).unwrap_err();
    assert_eq!(path(&e), vec!["containerId"]);
    assert_eq!(e.expected, Expected::Text);
    assert_eq!(e.field_name(), "containerId");
}

#[test]
fn nested_wrong_kind_names_the_path() {
    let payload = obj(vec![("dependenciesVersions", obj(vec![("jquery", num("3"))]))]);
    let e = Configuration::parse(&payload).unwrap_err();
    assert_eq!(path(&e), vec!["dependenciesVersions", "jquery"]);
    assert_eq!(e.expected, Expected::Text);
    assert_eq!(e.field_name(), "dependenciesVersions.jquery");
}

#[test]
fn deep_theme_error_names_the_path() {
    let payload = obj(vec![(
        "theme",
        obj(vec![(
            "typography",
            obj(vec![("headings", obj(vec![("fontWeight", text("bold"))]))]),
        )]),
    )]);
    let e = Configuration::parse(&payload).unwrap_err();
    assert_eq!(path(&e), vec!["theme", "typography", "headings", "fontWeight"]);
    assert_eq!(e.expected, Expected::Count);
}

#[test]
fn first_bad_field_in_field_order_is_reported() {
    let payload = obj(vec![
        ("disableSearch", num("1")),
        ("redocVersion", Value::Bool(false)),
    ]);
    let e = Configuration::parse(&payload).unwrap_err();
    assert_eq!(path(&e), vec!["redocVersion"]);
    let only_renderer = obj(vec![("hideLoading", text("yes")), ("disableSearch", num("1"))]);
    let e = Configuration::parse(&only_renderer).unwrap_err();
    assert_eq!(path(&e), vec!["disableSearch"]);
    assert_eq!(e.expected, Expected::Flag);
}

#[test]
fn payload_must_be_an_object() {
    let e = Configuration::parse(&Value::Array(vec![])).unwrap_err();
    assert!(e.path.is_empty());
    assert_eq!(e.expected, Expected::Object);
    assert_eq!(e.field_name(), "");
}

#[test]
fn null_clears_optional_fields_but_not_settings() {
    let c = Configuration::parse(&obj(vec![("theme", Value::Null), ("hideLoading", Value::Null)]))
        .unwrap();
    assert_eq!(c.renderer.theme, None);
    assert_eq!(c.renderer.hide_loading, None);
    let e = Configuration::parse(&obj(vec![("redocVersion", Value::Null)])).unwrap_err();
    assert_eq!(path(&e), vec!["redocVersion"]);
    let e = Configuration::parse(&obj(vec![("authBtn", Value::Null)])).unwrap_err();
    assert_eq!(path(&e), vec!["authBtn"]);
    assert_eq!(e.expected, Expected::Object);
}

#[test]
fn unknown_keys_are_ignored() {
    let c = Configuration::parse(&obj(vec![("somethingNew", num("5")), ("hideHostname", Value::Bool(true))]))
        .unwrap();
    assert_eq!(c.renderer.hide_hostname, Some(true));
}

#[test]
fn counts_are_read_from_numerals() {
    let c = Configuration::parse(&obj(vec![("maxDisplayedEnumValues", num("10"))])).unwrap();
    assert_eq!(c.renderer.max_displayed_enum_values, Some(10));
    let c = Configuration::parse(&obj(vec![("payloadSampleIdx", num("4294967295"))])).unwrap();
    assert_eq!(c.renderer.payload_sample_idx, Some(4294967295));
    for bad in ["4294967296", "1.5", "-1", ""] {
        let e = Configuration::parse(&obj(vec![("payloadSampleIdx", num(bad))])).unwrap_err();
        assert_eq!(e.expected, Expected::Count);
    }
    let e = Configuration::parse(&obj(vec![("payloadSampleIdx", text("3"))])).unwrap_err();
    assert_eq!(e.expected, Expected::Count);
}

#[test]
fn numerals_round_trip() {
    assert_eq!(numeral_of(0), "0");
    assert_eq!(numeral_of(7), "7");
    assert_eq!(numeral_of(1200), "1200");
    assert_eq!(numeral_of(4294967295), "4294967295");
    assert_eq!(parse_numeral("007"), Some(7));
    assert_eq!(parse_numeral("42"), Some(42));
    assert_eq!(parse_numeral("99999999999"), None);
    assert_eq!(parse_numeral("4x"), None);
    assert_eq!(parse_numeral(""), None);
}

#[test]
fn extensions_are_a_list_of_strings() {
    let c = Configuration::parse(&obj(vec![(
        "showExtensions",
        Value::Array(vec![text("x-a"), text("x-b")]),
    )]))
    .unwrap();
    assert_eq!(c.renderer.show_extensions, Some(vec!["x-a".to_string(), "x-b".to_string()]));
    let e = Configuration::parse(&obj(vec![(
        "showExtensions",
        Value::Array(vec![text("x-a"), Value::Bool(true)]),
    )]))
    .unwrap_err();
    assert_eq!(e.expected, Expected::TextList);
}

#[test]
fn tonal_offset_keeps_its_numeral() {
    let c = Configuration::parse(&obj(vec![(
        "theme",
        obj(vec![("colors", obj(vec![("tonalOffset", num("0.3"))]))]),
    )]))
    .unwrap();
    let theme = c.renderer.theme.unwrap();
    assert_eq!(theme.colors, Some(Colors { tonal_offset: Some("0.3".to_string()) }));
    assert_eq!(theme.spacing, None);
}

fn full_renderer() -> RedocOptions {
    let mut r = RedocOptions::default();
    r.disable_search = Some(true);
    r.generated_payload_samples_max_depth = Some(10);
    r.json_sample_expand_level = Some(0);
    r.scroll_y_offset = Some("10".to_string());
    r.show_extensions = Some(vec!["x-".to_string()]);
    r.untrusted_spec = Some(false);
    r.theme = Some(ThemeOptions {
        spacing: Some(Spacing { unit: Some(5), section_horizontal: None, section_vertical: Some(40) }),
        colors: Some(Colors { tonal_offset: Some("0.2".to_string()) }),
        typography: Some(Typography {
            font_size: Some("14px".to_string()),
            headings: Some(Headings {
                font_family: Some("Montserrat".to_string()),
                font_weight: Some(400),
                line_height: None,
            }),
            ..Typography::default()
        }),
        ..ThemeOptions::default()
    });
    r
}

#[test]
fn writing_and_reading_again_gives_the_same_configuration() {
    let mut c = Configuration::parse(&obj(vec![("containerId", text("docs"))])).unwrap();
    c.renderer = full_renderer();
    c.bootstrap.auth_btn.text = Some("Authorize".to_string());
    let again = Configuration::parse(&c.to_value()).unwrap();
    assert_eq!(again, c);
    let third = Configuration::parse(&again.to_value()).unwrap();
    assert_eq!(third, again);
}

#[test]
fn renderer_payload_leaves_out_settings_and_unset_fields() {
    let mut c = Configuration::parse(&obj(vec![])).unwrap();
    c.renderer.hide_loading = Some(true);
    c.renderer.max_displayed_enum_values = Some(3);
    c.renderer.theme = Some(ThemeOptions {
        logo: Some(redoc_try_it_out::Logo { gutter: Some("2px".to_string()), max_height: None, max_width: None }),
        ..ThemeOptions::default()
    });
    let payload = c.renderer_payload();
    let e = entries(&payload);
    let keys: Vec<&str> = e.iter().map(|(k, _)| k.as_str()).collect();
    assert_eq!(keys, vec!["maxDisplayedEnumValues", "hideLoading", "theme"]);
    assert!(matches!(&e[0].1, Value::Number(n) if n == "3"));
    let theme = entries(&e[2].1);
    assert_eq!(theme.len(), 1);
    assert_eq!(theme[0].0, "logo");
    let logo = entries(&theme[0].1);
    assert_eq!(logo.len(), 1);
    assert_eq!(logo[0].0, "gutter");
}

#[test]
fn full_payload_lists_settings_first() {
    let c = Configuration::parse(&obj(vec![])).unwrap();
    let v = c.to_value();
    let keys: Vec<&str> = entries(&v).iter().map(|(k, _)| k.as_str()).collect();
    assert_eq!(
        keys,
        vec![
            "redocVersion",
            "tryItOutEnabled",
            "tryItBoxContainerId",
            "containerId",
            "operationBoxSelector",
            "selectedOperationClass",
            "dependenciesVersions",
            "authBtn",
            "tryBtn",
        ]
    );
}

#[test]
fn test_dependencies_versions() {
    let d = DependenciesVersions { jquery: "3.5.1".to_string(), jquery_scroll_to: "2.1.3".to_string() };
    let back = DependenciesVersions::from_entries(&d.to_entries()).unwrap();
    assert_eq!(d, back);
    assert_eq!(DependenciesVersions::default(), d);
}

#[test]
fn test_redoc_options() {
    let redoc_options = RedocOptions {
        disable_search: Some(true),
        expand_default_server_variables: Some(true),
        expand_responses: Some(true),
        generated_payload_samples_max_depth: Some(10),
        max_displayed_enum_values: Some(10),
        hide_download_button: Some(true),
        hide_hostname: Some(true),
        hide_loading: Some(true),
        hide_schema_pattern: Some(true),
        hide_single_request_sample_tab: Some(true),
        expand_single_schema_field: Some(true),
        json_sample_expand_level: Some(10),
        hide_schema_titles: Some(true),
        simple_one_of_type_label: Some(true),
        lazy_rendering: Some(true),
        menu_toggle: Some(true),
        native_scrollbars: Some(true),
        no_auto_auth: Some(true),
        only_required_in_samples: Some(true),
        path_in_middle_panel: Some(true),
        required_props_first: Some(true),
        scroll_y_offset: Some("10".to_string()),
        selector: Some("10".to_string()),
        show_extensions: Some(vec!["x-".to_string()]),
        sort_props_alphabetically: Some(true),
        payload_sample_idx: Some(10),
        theme: None,
        untrusted_spec: Some(true),
    };
    let deserialized = RedocOptions::from_entries(&redoc_options.to_entries()).unwrap();
    assert_eq!(redoc_options, deserialized);
}

#[test]
fn renderer_options_with_a_theme_round_trip() {
    let r = full_renderer();
    let back = RedocOptions::from_entries(&r.to_entries()).unwrap();
    assert_eq!(r, back);
}

#[test]
fn test_auth_btn_options() {
    let auth_btn_options = AuthBtnOptions {
        pos_selector: Some("selector".to_string()),
        text: Some("text".to_string()),
        class_name: Some("class".to_string()),
    };
    let deserialized = AuthBtnOptions::from_entries(&auth_btn_options.to_entries()).unwrap();
    assert_eq!(auth_btn_options, deserialized);
}

#[test]
fn test_try_btn_options() {
    let try_btn_options = TryBtnOptions {
        sibling_selector: Some("selector".to_string()),
        text: Some("text".to_string()),
        class_name: Some("class".to_string()),
        selected_class_name: Some("selected_class".to_string()),
    };
    let deserialized = TryBtnOptions::from_entries(&try_btn_options.to_entries()).unwrap();
    assert_eq!(try_btn_options, deserialized);
}

#[test]
fn test_redoc_try_it_out_options() {
    let redoc_try_it_out_options = RedocTryItOutOptions {
        redoc_version: "2.1.3".to_string(),
        try_it_out_enabled: true,
        try_it_box_container_id: "try-out-wrapper".to_string(),
        container_id: "redoc-container".to_string(),
        operation_box_selector: "[data-section-id]".to_string(),
        selected_operation_class: "try".to_string(),
        dependencies_versions: DependenciesVersions {
            jquery: "3.5.1".to_string(),
            jquery_scroll_to: "2.1.3".to_string(),
        },
        auth_btn: AuthBtnOptions {
            pos_selector: Some("selector".to_string()),
            text: Some("text".to_string()),
            class_name: Some("class".to_string()),
        },
        try_btn: TryBtnOptions {
            sibling_selector: Some("selector".to_string()),
            text: Some("text".to_string()),
            class_name: Some("class".to_string()),
            selected_class_name: Some("selected_class".to_string()),
        },
    };
    let deserialized =
        RedocTryItOutOptions::from_entries(&redoc_try_it_out_options.to_entries()).unwrap();
    assert_eq!(redoc_try_it_out_options, deserialized);
}

#[test]
fn test_right_panel_options_from_json() {
    let payload = obj(vec![
        ("backgroundColor", text("#fafafa")),
        ("width", text("40%")),
        ("textColor", text("#333333")),
    ]);
    let expected = RightPanel {
        background_color: Some("#fafafa".to_string()),
        width: Some("40%".to_string()),
        text_color: Some("#333333".to_string()),
    };
    assert_eq!(RightPanel::from_entries(entries(&payload)).unwrap(), expected);
}

#[test]
fn test_theme_options() {
    let s = |v: &str| Some(v.to_string());
    let theme_options = ThemeOptions {
        spacing: Some(Spacing {
            unit: Some(10),
            section_horizontal: Some(10),
            section_vertical: Some(10),
        }),
        breakpoints: Some(Breakpoints { small: s("10"), medium: s("10"), large: s("10") }),
        // the tonal offset 10.0 travels as the numeral JavaScript writes for it
        colors: Some(Colors { tonal_offset: s("10") }),
        typography: Some(Typography {
            font_size: s("10"),
            line_height: s("10"),
            font_weight_regular: Some(10),
            font_weight_bold: Some(10),
            font_weight_light: Some(10),
            font_family: s("10"),
            smoothing: s("10"),
            optimize_speed: Some(true),
            headings: Some(Headings { font_family: s("10"), font_weight: Some(10), line_height: s("10") }),
            code: Some(Code {
                font_size: s("10"),
                font_family: s("10"),
                line_height: Some(1),
                font_weight: Some(10),
                color: s("10"),
                background_color: s("10"),
                wrap: Some(true),
            }),
            links: Some(Links { color: s("10"), visited: s("10"), hover: s("10") }),
        }),
        right_panel: Some(RightPanel { background_color: s("10"), width: s("10"), text_color: s("10") }),
        logo: Some(Logo { gutter: s("10"), max_height: s("10"), max_width: s("10") }),
        sidebar: Some(Menu {
            width: s("10"),
            background_color: s("10"),
            text_color: s("10"),
            active_text_color: s("10"),
            group_items: Some(GroupItems { text_transform: s("10") }),
            level1_items: Some(Level1Items { text_transform: s("10") }),
            arrow: Some(Arrow { size: s("10"), color: s("10") }),
        }),
    };
    let deserialized = ThemeOptions::from_entries(&theme_options.to_entries()).unwrap();
    assert_eq!(theme_options, deserialized);
}

#[test]
fn tonal_offset_must_be_a_number() {
    let payload = obj(vec![(
        "theme",
        obj(vec![("colors", obj(vec![("tonalOffset", text("0.3"))]))]),
    )]);
    let e = Configuration::parse(&payload).unwrap_err();
    assert_eq!(path(&e), vec!["theme", "colors", "tonalOffset"]);
    assert_eq!(e.expected, Expected::Number);
    assert_eq!(e.field_name(), "theme.colors.tonalOffset");
}

#[test]
fn first_entry_under_a_repeated_key_is_read() {
    let payload = obj(vec![("containerId", text("first")), ("containerId", text("second"))]);
    let c = Configuration::parse(&payload).unwrap();
    assert_eq!(c.bootstrap.container_id, "first");
}

#[test]
fn well_typed_payload_with_unknown_keys_reads() {
    let payload = obj(vec![
        ("redocVersion", text("2.0.0")),
        ("tryItOutEnabled", Value::Bool(false)),
        ("extra", obj(vec![("anything", Value::Array(vec![]))])),
        ("theme", obj(vec![("logo", obj(vec![("gutter", text("4px")), ("other", num("1"))]))])),
    ]);
    let c = Configuration::parse(&payload).unwrap();
    assert_eq!(c.bootstrap.redoc_version, "2.0.0");
    assert!(!c.bootstrap.try_it_out_enabled);
    assert_eq!(c.bootstrap.container_id, "redoc-container");
}

#[test]
fn wrong_flag_names_the_field_and_kind() {
    let e = Configuration::parse(&obj(vec![("tryItOutEnabled", text("yes"))])).unwrap_err();
    assert_eq!(e.field_name(), "tryItOutEnabled");
    assert_eq!(e.expected, Expected::Flag);
}
