//! Where generated files go: the directory layout that the Kotlin
//! Multiplatform build reads, computed as a list of files to write.

use crate::config::{Component, ComponentView};
use crate::resolve::{package_name, package_of};
use crate::text::{concat2, concat4, split, split_on, views_of};
use crate::KotlinMultiplatformBindings;
use camino::{Utf8Path, Utf8PathBuf};
use vstd::prelude::*;

verus! {

/// What `camino::Utf8Path::join` returns for the path `base` and the path
/// `path` adjoined to it, under the path rules of the platform that the
/// library is built for.
pub uninterp spec fn joined_path(base: Seq<char>, path: Seq<char>) -> Seq<char>;

/// What collecting path components into a `camino::Utf8PathBuf` returns:
/// the components pushed, one after the other, onto the empty path.
pub uninterp spec fn collected_path(parts: Seq<Seq<char>>) -> Seq<char>;

/// Calls `camino::Utf8Path::join`. The contract only names the result: the
/// path that camino builds from `base` with `path` adjoined.
#[verifier::external_body]
fn join(base: &str, path: &str) -> (joined: String)
    ensures
        joined@ == joined_path(base@, path@),
{
    Utf8Path::new(base).join(path).into_string()
}

/// Calls `camino::Utf8PathBuf`'s `FromIterator::from_iter`. The contract
/// only names the result: the path that camino builds from the components.
#[verifier::external_body]
fn collect(parts: &Vec<String>) -> (path: String)
    ensures
        path@ == collected_path(views_of(parts@)),
{
    parts.iter().collect::<Utf8PathBuf>().into_string()
}

/// A partition of the generated code for one platform target.
#[derive(Clone, Copy, Debug, PartialEq, Eq)]
pub enum SourceSet {
    Common,
    Jvm,
    Native,
}

impl SourceSet {
    /// The name of the source set as the build tool spells it.
    pub open spec fn spec_name(self) -> Seq<char> {
        match self {
            SourceSet::Common => "common"@,
            SourceSet::Jvm => "jvm"@,
            SourceSet::Native => "native"@,
        }
    }

    /// The name of the source set as the build tool spells it.
    pub fn name(self) -> (name: &'static str)
        ensures
            name@ == self.spec_name(),
    {
        match self {
            SourceSet::Common => "common",
            SourceSet::Jvm => "jvm",
            SourceSet::Native => "native",
        }
    }
}

/// The directory of a source set under the output directory: its name and
/// `Main`.
pub open spec fn source_set_dir_name(set: SourceSet) -> Seq<char> {
    set.spec_name() + "Main"@
}

/// The file of a component in a source set: namespace, source set, `kt`,
/// with dots between.
pub open spec fn source_file_name(namespace: Seq<char>, set: SourceSet) -> Seq<char> {
    namespace + "."@ + set.spec_name() + ".kt"@
}

/// The header file of a component: its namespace and `.h`.
pub open spec fn header_file_name(namespace: Seq<char>) -> Seq<char> {
    namespace + ".h"@
}

/// The directory that holds a component's file for a source set: under the
/// output directory the source set's directory, `kotlin`, and one directory
/// for each piece of the package name between its dots.
pub open spec fn source_dir(out_dir: Seq<char>, package: Seq<char>, set: SourceSet) -> Seq<char> {
    joined_path(
        joined_path(joined_path(out_dir, source_set_dir_name(set)), "kotlin"@),
        collected_path(split_on(package, '.')),
    )
}

/// The directory that holds a component's header.
pub open spec fn header_dir(out_dir: Seq<char>, namespace: Seq<char>) -> Seq<char> {
    joined_path(
        joined_path(
            joined_path(joined_path(out_dir, "nativeInterop"@), "cinterop"@),
            "headers"@,
        ),
        namespace,
    )
}

/// What a [`FileWrite`] holds, as plain mathematical values.
pub struct FileWriteView {
    pub dir: Seq<char>,
    pub path: Seq<char>,
    pub content: Seq<char>,
}

/// One file to write: create `dir` with all its parents unless it exists,
/// then create or truncate `path` and write `content` to it.
#[derive(Debug)]
pub struct FileWrite {
    pub dir: String,
    pub path: String,
    pub content: String,
}

impl View for FileWrite {
    type V = FileWriteView;

    open spec fn view(&self) -> FileWriteView {
        FileWriteView { dir: self.dir@, path: self.path@, content: self.content@ }
    }
}

/// The views of a list of files to write, in order.
pub open spec fn views_of_files(files: Seq<FileWrite>) -> Seq<FileWriteView> {
    files.map_values(|f: FileWrite| f@)
}

/// The file of component `c` for a source set, holding `content`.
pub open spec fn target_of(
    c: ComponentView,
    out_dir: Seq<char>,
    set: SourceSet,
    content: Seq<char>,
) -> FileWriteView {
    FileWriteView {
        dir: source_dir(out_dir, package_of(c), set),
        path: joined_path(
            source_dir(out_dir, package_of(c), set),
            source_file_name(c.namespace, set),
        ),
        content,
    }
}

/// The header of component `c`, holding `content`.
pub open spec fn cinterop_of(c: ComponentView, out_dir: Seq<char>, content: Seq<char>) -> FileWriteView {
    FileWriteView {
        dir: header_dir(out_dir, c.namespace),
        path: joined_path(header_dir(out_dir, c.namespace), header_file_name(c.namespace)),
        content,
    }
}

/// The four files of component `c`, in the order in which they are written:
/// common, jvm, native, header.
pub open spec fn files_of(
    c: ComponentView,
    out_dir: Seq<char>,
    common: Seq<char>,
    jvm: Seq<char>,
    native: Seq<char>,
    header: Seq<char>,
) -> Seq<FileWriteView> {
    seq![
        target_of(c, out_dir, SourceSet::Common, common),
        target_of(c, out_dir, SourceSet::Jvm, jvm),
        target_of(c, out_dir, SourceSet::Native, native),
        cinterop_of(c, out_dir, header),
    ]
}

/// The name of a source set's directory.
pub fn source_set_dir(set: SourceSet) -> (name: String)
    ensures
        name@ == source_set_dir_name(set),
{
    concat2(set.name(), "Main")
}

/// The name of a component's file in a source set.
pub fn source_file(namespace: &str, set: SourceSet) -> (name: String)
    ensures
        name@ == source_file_name(namespace@, set),
{
    concat4(namespace, ".", set.name(), ".kt")
}

/// The name of a component's header file.
pub fn header_file(namespace: &str) -> (name: String)
    ensures
        name@ == header_file_name(namespace@),
{
    concat2(namespace, ".h")
}

/// Plans the file of component `c` for one source set.
pub fn target_file(c: &Component, out_dir: &str, set: SourceSet, content: String) -> (file:
    FileWrite)
    ensures
        file@ == target_of(c@, out_dir@, set, content@),
{
    let source_set_name = source_set_dir(set);
    let package = package_name(c);
    let package_path = collect(&split(package.as_str(), '.'));
    let file_name = source_file(c.ci.namespace(), set);
    let set_dir = join(out_dir, source_set_name.as_str());
    let kotlin_dir = join(set_dir.as_str(), "kotlin");
    let dir = join(kotlin_dir.as_str(), package_path.as_str());
    let path = join(dir.as_str(), file_name.as_str());
    FileWrite { dir, path, content }
}

/// Plans the header of component `c`.
pub fn cinterop_file(c: &Component, out_dir: &str, content: String) -> (file: FileWrite)
    ensures
        file@ == cinterop_of(c@, out_dir@, content@),
{
    let interop_dir = join(out_dir, "nativeInterop");
    let cinterop_dir = join(interop_dir.as_str(), "cinterop");
    let headers_dir = join(cinterop_dir.as_str(), "headers");
    let dir = join(headers_dir.as_str(), c.ci.namespace());
    let file_name = header_file(c.ci.namespace());
    let path = join(dir.as_str(), file_name.as_str());
    FileWrite { dir, path, content }
}

/// Plans the four files of component `c` from its generated texts.
pub fn component_files(c: &Component, out_dir: &str, bindings: KotlinMultiplatformBindings) -> (files:
    Vec<FileWrite>)
    ensures
        views_of_files(files@) == files_of(
            c@,
            out_dir@,
            bindings.common@,
            bindings.jvm@,
            bindings.native@,
            bindings.header@,
        ),
{
    let mut files: Vec<FileWrite> = Vec::new();
    files.push(target_file(c, out_dir, SourceSet::Common, bindings.common));
    files.push(target_file(c, out_dir, SourceSet::Jvm, bindings.jvm));
    files.push(target_file(c, out_dir, SourceSet::Native, bindings.native));
    files.push(cinterop_file(c, out_dir, bindings.header));
    proof {
        assert(views_of_files(files@) =~= files_of(
            c@,
            out_dir@,
            bindings.common@,
            bindings.jvm@,
            bindings.native@,
            bindings.header@,
        ));
    }
    files
}

} // verus!
