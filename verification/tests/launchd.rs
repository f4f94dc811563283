use eternalmac::platform::launchd::{environment_in_order, escape_xml, render, Definition};

#[test]
fn plist_render_includes_label_and_program() {
    let xml = render(&Definition {
        label: "com.eternalmac.server".into(),
        program_arguments: vec![
            "/opt/homebrew/bin/eternalMac".into(),
            "daemon".into(),
            "server".into(),
        ],
        environment_variables: vec![],
        run_at_load: true,
        keep_alive: true,
    });

    assert!(xml.contains("com.eternalmac.server"));
    assert!(xml.contains("<string>daemon</string>"));
}

#[test]
fn plist_render_escapes_xml_in_label_and_program_arguments() {
    let xml = render(&Definition {
        label: "com.eternalmac.server&<>'\"".into(),
        program_arguments: vec![
            "arg&one".into(),
            "arg<two>".into(),
            "arg'three'\"".into(),
        ],
        environment_variables: vec![],
        run_at_load: true,
        keep_alive: false,
    });

    assert!(xml.contains("<key>Label</key><string>com.eternalmac.server&amp;&lt;&gt;&apos;&quot;</string>"));
    assert!(xml.contains("<string>arg&amp;one</string>"));
    assert!(xml.contains("<string>arg&lt;two&gt;</string>"));
    assert!(xml.contains("<string>arg&apos;three&apos;&quot;</string>"));

    assert!(!xml.contains("com.eternalmac.server&<>'\""));
    assert!(!xml.contains("<string>arg&one</string>"));
    assert!(!xml.contains("<string>arg<two></string>"));
}

#[test]
fn plist_render_is_exact_without_environment() {
    let xml = render(&Definition {
        label: "l".into(),
        program_arguments: vec!["a".into(), "b".into()],
        environment_variables: vec![],
        run_at_load: false,
        keep_alive: true,
    });
    assert_eq!(
        xml,
        "<?xml version=\"1.0\" encoding=\"UTF-8\"?>\n<!DOCTYPE plist PUBLIC \"-//Apple//DTD PLIST 1.0//EN\" \"http://www.apple.com/DTDs/PropertyList-1.0.dtd\">\n<plist version=\"1.0\"><dict>\n<key>Label</key><string>l</string>\n<key>ProgramArguments</key><array><string>a</string><string>b</string></array>\n\n<key>RunAtLoad</key><false/>\n<key>KeepAlive</key><true/>\n</dict></plist>"
    );
}

#[test]
fn plist_render_lists_environment_in_a_dict() {
    let xml = render(&Definition {
        label: "l".into(),
        program_arguments: vec![],
        environment_variables: vec![
            ("HOME".into(), "/Users/me".into()),
            ("PATH".into(), "/bin&/usr/bin".into()),
        ],
        run_at_load: true,
        keep_alive: true,
    });
    assert!(xml.contains(
        "<array></array>\n<key>EnvironmentVariables</key><dict><key>HOME</key><string>/Users/me</string><key>PATH</key><string>/bin&amp;/usr/bin</string></dict>\n<key>RunAtLoad</key><true/>"
    ));
}

#[test]
fn escape_xml_replaces_each_markup_character() {
    assert_eq!(escape_xml("a&b<c>d\"e'f"), "a&amp;b&lt;c&gt;d&quot;e&apos;f");
    assert_eq!(escape_xml("&amp;"), "&amp;amp;");
    assert_eq!(escape_xml(""), "");
    assert_eq!(escape_xml("plain text"), "plain text");
}

#[test]
fn environment_is_listed_as_a_map_by_name() {
    let env = vec![
        ("PATH".to_string(), "/bin".to_string()),
        ("HOME".to_string(), "/Users/me".to_string()),
        ("PATH".to_string(), "/usr/bin".to_string()),
        ("Apple".to_string(), "1".to_string()),
        ("apple".to_string(), "2".to_string()),
    ];
    let ordered = environment_in_order(&env);
    let expected: Vec<(String, String)> = vec![
        ("Apple".into(), "1".into()),
        ("HOME".into(), "/Users/me".into()),
        ("PATH".into(), "/usr/bin".into()),
        ("apple".into(), "2".into()),
    ];
    assert_eq!(ordered, expected);
    let map: std::collections::BTreeMap<String, String> = env.iter().cloned().collect();
    assert_eq!(ordered, map.into_iter().collect::<Vec<_>>());

    let xml = render(&Definition {
        label: "l".into(),
        program_arguments: vec![],
        environment_variables: env,
        run_at_load: true,
        keep_alive: true,
    });
    assert!(xml.contains(
        "<dict><key>Apple</key><string>1</string><key>HOME</key><string>/Users/me</string><key>PATH</key><string>/usr/bin</string><key>apple</key><string>2</string></dict>"
    ));
}

#[test]
fn environment_order_matches_string_order_for_prefixes_and_unicode() {
    let env: Vec<(String, String)> = ["ab", "a", "é", "z", "", "ab"]
        .iter()
        .enumerate()
        .map(|(i, k)| (k.to_string(), i.to_string()))
        .collect();
    let map: std::collections::BTreeMap<String, String> = env.iter().cloned().collect();
    assert_eq!(environment_in_order(&env), map.into_iter().collect::<Vec<_>>());
}
