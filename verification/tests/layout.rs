use kmp_bindgen::config::{Component, ComponentInterface, Config};
use kmp_bindgen::layout::{
    cinterop_file, component_files, header_file, source_file, source_set_dir,
    target_file, SourceSet,
};
use kmp_bindgen::resolve::package_name;
use kmp_bindgen::text::{concat2, concat4, split};
use kmp_bindgen::KotlinMultiplatformBindings;

fn component(namespace: &str, package: Option<&str>) -> Component {
    let mut config = Config::default();
    config.package_name = package.map(|p| p.to_string());
    Component {
        ci: ComponentInterface::new(namespace.to_string(), "some_crate".to_string()),
        config,
    }
}

fn bindings() -> KotlinMultiplatformBindings {
    KotlinMultiplatformBindings {
        common: "common text".to_string(),
        jvm: "jvm text".to_string(),
        native: "native text".to_string(),
        header: "header text".to_string(),
    }
}

#[test]
fn split_cuts_at_every_dot() {
    assert_eq!(split("com.foo", '.'), vec!["com".to_string(), "foo".to_string()]);
    assert_eq!(split("a.b.c", '.'), vec!["a".to_string(), "b".to_string(), "c".to_string()]);
    assert_eq!(split("plain", '.'), vec!["plain".to_string()]);
}

#[test]
fn split_keeps_empty_pieces() {
    assert_eq!(split("", '.'), vec!["".to_string()]);
    assert_eq!(split(".", '.'), vec!["".to_string(), "".to_string()]);
    assert_eq!(split(".a", '.'), vec!["".to_string(), "a".to_string()]);
    assert_eq!(split("a.", '.'), vec!["a".to_string(), "".to_string()]);
    assert_eq!(split("a..b", '.'), vec!["a".to_string(), "".to_string(), "b".to_string()]);
}

#[test]
fn split_agrees_with_std_on_wide_characters() {
    let text = "päckage.naïve.日本";
    let expected: Vec<String> = text.split('.').map(|s| s.to_string()).collect();
    assert_eq!(split(text, '.'), expected);
}

#[test]
fn concat_puts_strings_in_order() {
    assert_eq!(concat2("uniffi.", "example"), "uniffi.example");
    assert_eq!(concat2("", ""), "");
    assert_eq!(concat4("example", ".", "jvm", ".kt"), "example.jvm.kt");
}

#[test]
fn source_set_names() {
    assert_eq!(SourceSet::Common.name(), "common");
    assert_eq!(SourceSet::Jvm.name(), "jvm");
    assert_eq!(SourceSet::Native.name(), "native");
    assert_eq!(source_set_dir(SourceSet::Common), "commonMain");
    assert_eq!(source_set_dir(SourceSet::Jvm), "jvmMain");
    assert_eq!(source_set_dir(SourceSet::Native), "nativeMain");
}

#[test]
fn file_names() {
    assert_eq!(source_file("example", SourceSet::Common), "example.common.kt");
    assert_eq!(source_file("example", SourceSet::Jvm), "example.jvm.kt");
    assert_eq!(source_file("example", SourceSet::Native), "example.native.kt");
    assert_eq!(header_file("example"), "example.h");
}

#[test]
fn package_name_is_the_configured_one_or_the_default() {
    assert_eq!(package_name(&component("example", Some("com.foo"))), "com.foo");
    assert_eq!(package_name(&component("example", None)), "uniffi.example");
}

#[test]
fn target_file_lies_under_source_set_and_package() {
    let c = component("example", Some("com.foo"));
    let file = target_file(&c, "out", SourceSet::Jvm, "text".to_string());
    assert_eq!(file.dir, "out/jvmMain/kotlin/com/foo");
    assert_eq!(file.path, "out/jvmMain/kotlin/com/foo/example.jvm.kt");
    assert_eq!(file.content, "text");
}

#[test]
fn target_file_of_single_piece_package() {
    let c = component("example", Some("flat"));
    let file = target_file(&c, "/abs/out", SourceSet::Common, String::new());
    assert_eq!(file.dir, "/abs/out/commonMain/kotlin/flat");
    assert_eq!(file.path, "/abs/out/commonMain/kotlin/flat/example.common.kt");
    assert_eq!(file.content, "");
}

#[test]
fn target_file_of_default_package() {
    let c = component("example", None);
    let file = target_file(&c, "out", SourceSet::Native, "n".to_string());
    assert_eq!(file.path, "out/nativeMain/kotlin/uniffi/example/example.native.kt");
}

#[test]
fn cinterop_file_lies_under_headers() {
    let c = component("example", Some("com.foo"));
    let file = cinterop_file(&c, "out", "header".to_string());
    assert_eq!(file.dir, "out/nativeInterop/cinterop/headers/example");
    assert_eq!(file.path, "out/nativeInterop/cinterop/headers/example/example.h");
    assert_eq!(file.content, "header");
}

#[test]
fn component_files_are_the_four_files_with_their_texts() {
    let c = component("example", Some("com.foo"));
    let files = component_files(&c, "out", bindings());
    let got: Vec<(&str, &str, &str)> =
        files.iter().map(|f| (f.dir.as_str(), f.path.as_str(), f.content.as_str())).collect();
    assert_eq!(
        got,
        vec![
            (
                "out/commonMain/kotlin/com/foo",
                "out/commonMain/kotlin/com/foo/example.common.kt",
                "common text"
            ),
            ("out/jvmMain/kotlin/com/foo", "out/jvmMain/kotlin/com/foo/example.jvm.kt", "jvm text"),
            (
                "out/nativeMain/kotlin/com/foo",
                "out/nativeMain/kotlin/com/foo/example.native.kt",
                "native text"
            ),
            (
                "out/nativeInterop/cinterop/headers/example",
                "out/nativeInterop/cinterop/headers/example/example.h",
                "header text"
            ),
        ]
    );
}

#[test]
fn component_files_are_the_same_each_time() {
    let c = component("example", Some("com.foo"));
    let first: Vec<(String, String, String)> = component_files(&c, "out", bindings())
        .into_iter()
        .map(|f| (f.dir, f.path, f.content))
        .collect();
    let second: Vec<(String, String, String)> = component_files(&c, "out", bindings())
        .into_iter()
        .map(|f| (f.dir, f.path, f.content))
        .collect();
    assert_eq!(first, second);
}

#[test]
fn paths_agree_with_camino() {
    let c = component("ns", Some("a.b"));
    let file = target_file(&c, "base", SourceSet::Common, String::new());
    let package: camino::Utf8PathBuf = "a.b".split('.').collect();
    let dir = camino::Utf8PathBuf::from("base").join("commonMain").join("kotlin").join(package);
    assert_eq!(file.dir, dir.as_str());
    assert_eq!(file.path, dir.join("ns.common.kt").as_str());
}
