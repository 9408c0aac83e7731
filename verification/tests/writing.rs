use kmp_bindgen::config::{Component, ComponentInterface, Config, GenerationSettings};
use kmp_bindgen::document::config_section;
use kmp_bindgen::error::Error;
use kmp_bindgen::layout::FileWrite;
use kmp_bindgen::writer::{step, PassState, WriteAction, WriteEvent};
use kmp_bindgen::{KotlinMultiplatformBindingGenerator, KotlinMultiplatformBindings};
use std::collections::BTreeMap;

fn component(namespace: &str, package: &str) -> Component {
    let mut config = Config::default();
    config.package_name = Some(package.to_string());
    Component {
        ci: ComponentInterface::new(namespace.to_string(), format!("{}_crate", namespace)),
        config,
    }
}

fn settings() -> GenerationSettings {
    GenerationSettings { out_dir: "out".to_string(), cdylib: None }
}

fn texts(tag: &str) -> KotlinMultiplatformBindings {
    KotlinMultiplatformBindings {
        common: format!("{} common", tag),
        jvm: format!("{} jvm", tag),
        native: format!("{} native", tag),
        header: format!("{} header", tag),
    }
}

fn document(text: &str) -> toml::Value {
    text.parse::<toml::Value>().unwrap()
}

/// Runs a whole pass over `components`. The generator fails for the
/// components whose index is in `failing`; every write lands in `disk`.
/// Returns the indices that were generated, in order, and how the pass ended.
fn run_pass(
    components: &Vec<Component>,
    failing: &[usize],
    tag: &str,
    disk: &mut BTreeMap<String, String>,
) -> (Vec<usize>, Result<(), Error>) {
    let generator = KotlinMultiplatformBindingGenerator;
    let settings = settings();
    let mut generated = Vec::new();
    let (mut state, mut action) =
        generator.write_bindings(&settings, components, PassState::new(), WriteEvent::Begin);
    loop {
        let event = match action {
            WriteAction::Finish => return (generated, Ok(())),
            WriteAction::Abort(error) => return (generated, Err(error)),
            WriteAction::Generate(index) => {
                generated.push(index);
                if failing.contains(&index) {
                    WriteEvent::GenerationFailed(format!("cannot render {}", index))
                } else {
                    WriteEvent::Generated(texts(&format!("{}{}", tag, index)))
                }
            }
            WriteAction::Write(files) => {
                for FileWrite { path, content, .. } in files {
                    disk.insert(path, content);
                }
                WriteEvent::Written
            }
        };
        let next = generator.write_bindings(&settings, components, state, event);
        state = next.0;
        action = next.1;
    }
}

#[test]
fn section_is_found_under_bindings() {
    let root = document("[bindings.kotlin-multiplatform]\npackage_name = \"com.foo\"\n");
    let section = config_section(&root).unwrap();
    assert_eq!(section.get("package_name").and_then(|v| v.as_str()), Some("com.foo"));
    assert!(section.get("bindings").is_none());
}

#[test]
fn section_is_absent_without_bindings() {
    let root = document("[other]\nkey = 1\n");
    assert!(config_section(&root).is_none());
    let empty = document("");
    assert!(config_section(&empty).is_none());
}

#[test]
fn section_is_absent_for_other_generators() {
    let root = document("[bindings.kotlin]\npackage_name = \"com.foo\"\n");
    assert!(config_section(&root).is_none());
}

#[test]
fn section_is_absent_where_bindings_is_no_table() {
    let root = document("bindings = 3\n");
    assert!(config_section(&root).is_none());
    let not_a_table = toml::Value::String("bindings".to_string());
    assert!(config_section(&not_a_table).is_none());
}

#[test]
fn section_is_not_sought_at_top_level() {
    let root = document("[kotlin-multiplatform]\npackage_name = \"com.foo\"\n");
    assert!(config_section(&root).is_none());
}

#[test]
fn new_config_without_section_is_the_default() {
    let generator = KotlinMultiplatformBindingGenerator;
    let config = generator.new_config(None).unwrap();
    assert_eq!(config.package_name, None);
    assert_eq!(config.cdylib_name, None);
    assert_eq!(config.external_packages.len(), 0);
}

#[test]
fn new_config_with_section_is_the_decoded_one() {
    let generator = KotlinMultiplatformBindingGenerator;
    let mut decoded = Config::default();
    decoded.package_name = Some("com.foo".to_string());
    decoded.external_packages.insert("other".to_string(), "com.other".to_string());
    let config = generator.new_config(Some(Ok(decoded))).unwrap();
    assert_eq!(config.package_name.as_deref(), Some("com.foo"));
    assert_eq!(config.cdylib_name, None);
    assert_eq!(config.external_packages.get("other").map(|s| s.as_str()), Some("com.other"));
}

#[test]
fn new_config_with_malformed_section_is_a_parse_error() {
    let generator = KotlinMultiplatformBindingGenerator;
    let failed = generator.new_config(Some(Err("expected a string".to_string())));
    match failed {
        Err(Error::ConfigParse(message)) => assert_eq!(message, "expected a string"),
        other => panic!("unexpected: {:?}", other),
    }
}

#[test]
fn error_message_and_clone() {
    let errors = vec![
        Error::ConfigParse("a".to_string()),
        Error::Generation("b".to_string()),
        Error::FileSystem("c".to_string()),
    ];
    let messages: Vec<&str> = errors.iter().map(|e| e.message()).collect();
    assert_eq!(messages, vec!["a", "b", "c"]);
    assert!(matches!(errors[0].clone(), Error::ConfigParse(m) if m == "a"));
    assert!(matches!(errors[1].clone(), Error::Generation(m) if m == "b"));
    assert!(matches!(errors[2].clone(), Error::FileSystem(m) if m == "c"));
}

#[test]
fn write_produces_exactly_the_four_files() {
    let components = vec![component("example", "com.foo")];
    let mut disk = BTreeMap::new();
    let (generated, end) = run_pass(&components, &[], "t", &mut disk);
    assert!(end.is_ok());
    assert_eq!(generated, vec![0]);
    let got: Vec<(&str, &str)> = disk.iter().map(|(p, c)| (p.as_str(), c.as_str())).collect();
    assert_eq!(
        got,
        vec![
            ("out/commonMain/kotlin/com/foo/example.common.kt", "t0 common"),
            ("out/jvmMain/kotlin/com/foo/example.jvm.kt", "t0 jvm"),
            ("out/nativeInterop/cinterop/headers/example/example.h", "t0 header"),
            ("out/nativeMain/kotlin/com/foo/example.native.kt", "t0 native"),
        ]
    );
}

#[test]
fn writing_twice_overwrites_the_first_content() {
    let components = vec![component("example", "com.foo")];
    let mut disk = BTreeMap::new();
    let (_, first) = run_pass(&components, &[], "a long first text ", &mut disk);
    assert!(first.is_ok());
    let (_, second) = run_pass(&components, &[], "s", &mut disk);
    assert!(second.is_ok());
    assert_eq!(disk.len(), 4);
    assert_eq!(disk["out/commonMain/kotlin/com/foo/example.common.kt"], "s0 common");
    assert_eq!(disk["out/nativeInterop/cinterop/headers/example/example.h"], "s0 header");
    let mut again = disk.clone();
    let (_, third) = run_pass(&components, &[], "s", &mut again);
    assert!(third.is_ok());
    assert_eq!(again, disk);
}

#[test]
fn generation_failure_stops_the_pass_and_keeps_earlier_files() {
    let components =
        vec![component("one", "p.one"), component("two", "p.two"), component("three", "p.three")];
    let mut disk = BTreeMap::new();
    let (generated, end) = run_pass(&components, &[1], "t", &mut disk);
    assert_eq!(generated, vec![0, 1]);
    match end {
        Err(Error::Generation(message)) => assert_eq!(message, "cannot render 1"),
        other => panic!("unexpected: {:?}", other),
    }
    assert_eq!(disk.len(), 4);
    assert_eq!(disk["out/commonMain/kotlin/p/one/one.common.kt"], "t0 common");
    assert_eq!(disk["out/jvmMain/kotlin/p/one/one.jvm.kt"], "t0 jvm");
    assert_eq!(disk["out/nativeMain/kotlin/p/one/one.native.kt"], "t0 native");
    assert_eq!(disk["out/nativeInterop/cinterop/headers/one/one.h"], "t0 header");
    assert!(disk.keys().all(|path| !path.contains("two") && !path.contains("three")));
}

#[test]
fn components_are_written_in_the_order_given() {
    let components =
        vec![component("one", "p.one"), component("two", "p.two"), component("three", "p.three")];
    let mut disk = BTreeMap::new();
    let (generated, end) = run_pass(&components, &[], "t", &mut disk);
    assert!(end.is_ok());
    assert_eq!(generated, vec![0, 1, 2]);
    assert_eq!(disk.len(), 12);
    assert_eq!(disk["out/jvmMain/kotlin/p/three/three.jvm.kt"], "t2 jvm");
}

#[test]
fn pass_over_no_components_finishes_at_once() {
    let components: Vec<Component> = Vec::new();
    let (state, action) = step(&components, "out", PassState::new(), WriteEvent::Begin);
    assert!(matches!(state, PassState::Finished));
    assert!(matches!(action, WriteAction::Finish));
}

#[test]
fn write_failure_stops_the_pass() {
    let components = vec![component("one", "p.one"), component("two", "p.two")];
    let (state, action) = step(&components, "out", PassState::new(), WriteEvent::Begin);
    assert!(matches!(action, WriteAction::Generate(0)));
    let (state, action) = step(&components, "out", state, WriteEvent::Generated(texts("t")));
    assert!(matches!(state, PassState::Writing(0)));
    assert!(matches!(&action, WriteAction::Write(files) if files.len() == 4));
    let (state, action) =
        step(&components, "out", state, WriteEvent::WriteFailed("disk full".to_string()));
    assert!(matches!(&state, PassState::Failed(Error::FileSystem(m)) if m == "disk full"));
    assert!(matches!(&action, WriteAction::Abort(Error::FileSystem(m)) if m == "disk full"));
    let (state, action) = step(&components, "out", state, WriteEvent::Written);
    assert!(matches!(&state, PassState::Failed(Error::FileSystem(m)) if m == "disk full"));
    assert!(matches!(&action, WriteAction::Abort(Error::FileSystem(m)) if m == "disk full"));
    let (state, action) = step(&components, "out", state, WriteEvent::Generated(texts("late")));
    assert!(matches!(&state, PassState::Failed(Error::FileSystem(m)) if m == "disk full"));
    assert!(matches!(&action, WriteAction::Abort(_)));
}

#[test]
fn finished_pass_stays_finished() {
    let components = vec![component("one", "p.one")];
    let (state, _) = step(&components, "out", PassState::new(), WriteEvent::Begin);
    let (state, _) = step(&components, "out", state, WriteEvent::Generated(texts("t")));
    let (state, action) = step(&components, "out", state, WriteEvent::Written);
    assert!(matches!(state, PassState::Finished));
    assert!(matches!(action, WriteAction::Finish));
    let (state, action) =
        step(&components, "out", state, WriteEvent::GenerationFailed("late".to_string()));
    assert!(matches!(state, PassState::Finished));
    assert!(matches!(action, WriteAction::Finish));
}

#[test]
fn events_out_of_turn_repeat_the_request() {
    let components = vec![component("one", "p.one"), component("two", "p.two")];
    let (state, action) = step(&components, "out", PassState::Generating(1), WriteEvent::Written);
    assert!(matches!(state, PassState::Generating(1)));
    assert!(matches!(action, WriteAction::Generate(1)));
    let (state, action) = step(&components, "out", PassState::Writing(0), WriteEvent::Begin);
    assert!(matches!(state, PassState::Generating(0)));
    assert!(matches!(action, WriteAction::Generate(0)));
    let (state, action) = step(&components, "out", PassState::Writing(5), WriteEvent::Written);
    assert!(matches!(state, PassState::Finished));
    assert!(matches!(action, WriteAction::Finish));
}
