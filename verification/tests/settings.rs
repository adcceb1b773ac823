use relaxed_ik::settings::{Settings, SettingsError};
use relaxed_ik::yaml::{count_nesting_marks, YamlNode, MAX_NESTING_MARKS, MAX_SETTINGS_CHARS};

fn text(s: &str) -> YamlNode {
    YamlNode::Text(s.to_string())
}

fn entry(key: &str, value: YamlNode) -> (YamlNode, YamlNode) {
    (text(key), value)
}

fn minimal() -> Vec<(YamlNode, YamlNode)> {
    vec![
        entry("urdf", text("arm.urdf")),
        entry("base_links", YamlNode::Array(vec![text("base")])),
        entry("ee_links", YamlNode::Array(vec![text("hand")])),
    ]
}

fn with(extra: (YamlNode, YamlNode)) -> YamlNode {
    let mut entries = minimal();
    entries.push(extra);
    YamlNode::Hash(entries)
}

const FULL: &str = "urdf: ur5.urdf
base_links:
  - base_link
  - torso
ee_links:
  - wrist_3_link
  - gripper
joint_ordering:
  - shoulder_pan_joint
  - shoulder_lift_joint
starting_config: [3.12, -1.5, 0.0, 1e-3]
ee_only: false
";

#[test]
fn a_full_file_is_read() {
    let s = Settings::parse(FULL).unwrap();
    assert_eq!(
        s,
        Settings {
            urdf: "ur5.urdf".to_string(),
            base_links: vec!["base_link".to_string(), "torso".to_string()],
            ee_links: vec!["wrist_3_link".to_string(), "gripper".to_string()],
            joint_ordering: Some(vec![
                "shoulder_pan_joint".to_string(),
                "shoulder_lift_joint".to_string()
            ]),
            starting_config: Some(vec![
                "3.12".to_string(),
                "-1.5".to_string(),
                "0.0".to_string(),
                "1e-3".to_string()
            ]),
            ee_only: false,
        }
    );
}

#[test]
fn optional_keys_have_defaults() {
    let s = Settings::parse("urdf: arm.urdf\nbase_links: [base]\nee_links: [hand]\n").unwrap();
    assert_eq!(s.urdf, "arm.urdf");
    assert_eq!(s.base_links, vec!["base".to_string()]);
    assert_eq!(s.ee_links, vec!["hand".to_string()]);
    assert_eq!(s.joint_ordering, None);
    assert_eq!(s.starting_config, None);
    assert!(s.ee_only);
}

#[test]
fn only_the_first_document_counts() {
    let s = Settings::parse(
        "urdf: first.urdf\nbase_links: [a]\nee_links: [b]\n---\nurdf: second.urdf\n",
    )
    .unwrap();
    assert_eq!(s.urdf, "first.urdf");
}

#[test]
fn an_empty_joint_ordering_is_none() {
    let s = Settings::parse("urdf: a\nbase_links: [b]\nee_links: [c]\njoint_ordering: []\n")
        .unwrap();
    assert_eq!(s.joint_ordering, None);
}

#[test]
fn a_joint_ordering_keeps_its_texts_only() {
    let s = Settings::parse("urdf: a\nbase_links: [b]\nee_links: [c]\njoint_ordering: [j1, 2, j3]\n")
        .unwrap();
    assert_eq!(s.joint_ordering, Some(vec!["j1".to_string(), "j3".to_string()]));
    let s = Settings::parse("urdf: a\nbase_links: [b]\nee_links: [c]\njoint_ordering: j1\n")
        .unwrap();
    assert_eq!(s.joint_ordering, None);
}

#[test]
fn text_that_is_not_yaml_is_a_syntax_error() {
    match Settings::parse("urdf: [a, b\nbase_links: ]") {
        Err(SettingsError::Syntax(detail)) => assert!(detail.contains("line")),
        other => panic!("expected a syntax error, got {:?}", other),
    }
}

#[test]
fn a_text_beyond_the_length_limit_is_not_loaded() {
    let longest = "a".repeat(MAX_SETTINGS_CHARS);
    assert_eq!(Settings::parse(&longest), Err(SettingsError::BadUrdf));
    let longer = "a".repeat(MAX_SETTINGS_CHARS + 1);
    assert_eq!(Settings::parse(&longer), Err(SettingsError::TooLong));
    let long_and_nested = "- ".repeat(MAX_SETTINGS_CHARS);
    assert_eq!(Settings::parse(&long_and_nested), Err(SettingsError::TooLong));
    let accented = "\u{e9}".repeat(MAX_SETTINGS_CHARS);
    assert_eq!(Settings::parse(&accented), Err(SettingsError::BadUrdf));
}

#[test]
fn a_text_beyond_the_nesting_limit_is_not_loaded() {
    let mut deepest = "- ".repeat(MAX_NESTING_MARKS);
    deepest.push('a');
    assert_eq!(Settings::parse(&deepest), Err(SettingsError::BadUrdf));
    let mut deeper = "- ".repeat(MAX_NESTING_MARKS + 1);
    deeper.push('a');
    assert_eq!(Settings::parse(&deeper), Err(SettingsError::TooNested));
    let brackets = "[".repeat(MAX_NESTING_MARKS + 1);
    assert_eq!(Settings::parse(&brackets), Err(SettingsError::TooNested));
    let braces = "{a: ".repeat(MAX_NESTING_MARKS / 2 + 1);
    assert_eq!(Settings::parse(&braces), Err(SettingsError::TooNested));
    let keys = "? ".repeat(MAX_NESTING_MARKS + 1);
    assert_eq!(Settings::parse(&keys), Err(SettingsError::TooNested));
}

#[test]
fn nesting_marks_are_counted() {
    assert_eq!(count_nesting_marks(""), 0);
    assert_eq!(count_nesting_marks("plain text"), 0);
    assert_eq!(count_nesting_marks("a: [b, {c: -1}]\n- ? x"), 7);
}

#[test]
fn nested_flow_lists_within_the_limit_are_loaded() {
    let mut text = "[".repeat(100);
    text.push_str(&"]".repeat(100));
    assert_eq!(Settings::parse(&text), Err(SettingsError::BadUrdf));
}

#[test]
fn text_without_a_document_is_turned_down() {
    assert_eq!(Settings::parse(""), Err(SettingsError::NoDocument));
    assert_eq!(Settings::from_documents(&vec![]), Err(SettingsError::NoDocument));
}

#[test]
fn a_missing_or_odd_urdf_is_turned_down() {
    assert_eq!(
        Settings::parse("base_links: [a]\nee_links: [b]\n"),
        Err(SettingsError::BadUrdf)
    );
    assert_eq!(
        Settings::parse("urdf: 3\nbase_links: [a]\nee_links: [b]\n"),
        Err(SettingsError::BadUrdf)
    );
    assert_eq!(Settings::parse("- urdf\n- arm.urdf\n"), Err(SettingsError::BadUrdf));
    assert_eq!(Settings::parse("just text"), Err(SettingsError::BadUrdf));
}

#[test]
fn bad_link_lists_are_turned_down() {
    assert_eq!(Settings::parse("urdf: a\nee_links: [b]\n"), Err(SettingsError::BadBaseLinks));
    assert_eq!(
        Settings::parse("urdf: a\nbase_links: base\nee_links: [b]\n"),
        Err(SettingsError::BadBaseLinks)
    );
    assert_eq!(
        Settings::parse("urdf: a\nbase_links: [base, 7]\nee_links: [b, c]\n"),
        Err(SettingsError::BadBaseLinks)
    );
    assert_eq!(Settings::parse("urdf: a\nbase_links: [b]\n"), Err(SettingsError::BadEeLinks));
    assert_eq!(
        Settings::parse("urdf: a\nbase_links: [b]\nee_links: [true]\n"),
        Err(SettingsError::BadEeLinks)
    );
}

#[test]
fn differing_numbers_of_links_are_turned_down() {
    assert_eq!(
        Settings::parse("urdf: a\nbase_links: [b, c]\nee_links: [d]\n"),
        Err(SettingsError::ChainCountMismatch)
    );
    assert_eq!(
        Settings::parse("urdf: a\nbase_links: [b]\nee_links: [d, e]\n"),
        Err(SettingsError::ChainCountMismatch)
    );
}

#[test]
fn a_starting_config_must_be_real_numbers() {
    assert_eq!(
        Settings::parse("urdf: a\nbase_links: [b]\nee_links: [c]\nstarting_config: [0, 1]\n"),
        Err(SettingsError::BadStartingConfig)
    );
    assert_eq!(
        Settings::parse("urdf: a\nbase_links: [b]\nee_links: [c]\nstarting_config: 0.5\n"),
        Err(SettingsError::BadStartingConfig)
    );
    assert_eq!(
        Settings::parse("urdf: a\nbase_links: [b]\nee_links: [c]\nstarting_config: ~\n"),
        Err(SettingsError::BadStartingConfig)
    );
    let s = Settings::parse("urdf: a\nbase_links: [b]\nee_links: [c]\nstarting_config: []\n")
        .unwrap();
    assert_eq!(s.starting_config, Some(vec![]));
}

#[test]
fn ee_only_must_be_a_boolean() {
    assert_eq!(
        Settings::parse("urdf: a\nbase_links: [b]\nee_links: [c]\nee_only: 1\n"),
        Err(SettingsError::BadEeOnly)
    );
    let s = Settings::parse("urdf: a\nbase_links: [b]\nee_links: [c]\nee_only: true\n").unwrap();
    assert!(s.ee_only);
}

#[test]
fn the_first_fault_is_the_one_named() {
    assert_eq!(
        Settings::parse("base_links: 1\nee_links: 2\nee_only: 3\n"),
        Err(SettingsError::BadUrdf)
    );
    assert_eq!(
        Settings::parse("urdf: a\nbase_links: [b, c]\nee_links: [d]\nee_only: 3\n"),
        Err(SettingsError::ChainCountMismatch)
    );
    assert_eq!(
        Settings::parse(
            "urdf: a\nbase_links: [b]\nee_links: [d]\nstarting_config: [x]\nee_only: 3\n"
        ),
        Err(SettingsError::BadStartingConfig)
    );
}

#[test]
fn a_document_built_by_hand_is_read_alike() {
    let doc = with(entry(
        "starting_config",
        YamlNode::Array(vec![YamlNode::Real("0.5".to_string()), YamlNode::Real(".inf".to_string())]),
    ));
    let s = Settings::from_document(&doc).unwrap();
    assert_eq!(s.urdf, "arm.urdf");
    assert_eq!(s.starting_config, Some(vec!["0.5".to_string(), ".inf".to_string()]));
    assert!(s.ee_only);
    let doc = with(entry("ee_only", YamlNode::Boolean(false)));
    assert!(!Settings::from_document(&doc).unwrap().ee_only);
    assert_eq!(Settings::from_document(&YamlNode::Null), Err(SettingsError::BadUrdf));
    assert_eq!(Settings::from_document(&YamlNode::BadValue), Err(SettingsError::BadUrdf));
}

#[test]
fn a_key_that_is_no_text_is_not_found() {
    let doc = YamlNode::Hash(vec![
        (YamlNode::Integer(1), text("x")),
        entry("urdf", text("first")),
        entry("urdf", text("second")),
    ]);
    assert!(matches!(doc.field("urdf"), Some(YamlNode::Text(t)) if t == "first"));
    assert!(doc.field("1").is_none());
    assert!(doc.field("missing").is_none());
    assert!(text("urdf").field("urdf").is_none());
}

#[test]
fn lists_are_read_by_kind() {
    let list = YamlNode::Array(vec![text("a"), YamlNode::Real("1.5".to_string()), text("b")]);
    assert_eq!(list.as_texts(), None);
    assert_eq!(list.as_reals(), None);
    assert_eq!(list.texts_among(), Some(vec!["a".to_string(), "b".to_string()]));
    let texts = YamlNode::Array(vec![text("a"), text("b")]);
    assert_eq!(texts.as_texts(), Some(vec!["a".to_string(), "b".to_string()]));
    let reals = YamlNode::Array(vec![YamlNode::Real("1.5".to_string())]);
    assert_eq!(reals.as_reals(), Some(vec!["1.5".to_string()]));
    assert_eq!(text("a").as_texts(), None);
    assert_eq!(text("a").as_reals(), None);
    assert_eq!(text("a").texts_among(), None);
    assert_eq!(YamlNode::Array(vec![]).as_texts(), Some(vec![]));
}
