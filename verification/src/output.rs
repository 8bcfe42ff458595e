//! The generated files and where they go.

use vstd::prelude::*;
use vstd::string::*;
use vstd::utf8::encode_utf8;
use crate::ident::{lemma_package_starts_with_name, valid_package_ident};
use crate::text::{is_ascii_lowercase, replace_char, replaced};

verus! {

/// A generated file: its path, relative to the root of the generated sources
/// and with `/` between its parts, and its bytes.
#[derive(Clone, Debug)]
pub struct OutputFile {
    pub path: String,
    pub contents: Vec<u8>,
}

/// The mathematical value of an [`OutputFile`].
pub struct OutputFileView {
    pub path: Seq<char>,
    pub contents: Seq<u8>,
}

impl View for OutputFile {
    type V = OutputFileView;

    open spec fn view(&self) -> OutputFileView {
        OutputFileView { path: self.path@, contents: self.contents@ }
    }
}

/// The directory of a package: one directory per part of the package name, each
/// inside the one before.
pub open spec fn package_dir(package: Seq<char>) -> Seq<char> {
    replaced(package, '.', '/')
}

/// The path of the file `file_name` in `directory`.
pub open spec fn path_in(directory: Seq<char>, file_name: Seq<char>) -> Seq<char> {
    directory + seq!['/'] + file_name
}

/// The file `file_name` of `package` with the text `text`, encoded as UTF-8.
pub open spec fn output_file_of(
    package: Seq<char>,
    file_name: Seq<char>,
    text: Seq<char>,
) -> OutputFileView {
    OutputFileView {
        path: path_in(package_dir(package), file_name),
        contents: encode_utf8(text),
    }
}

/// The path of a file of a well-formed package is relative: it starts with the
/// first letter of the package name, and it holds a `/` wherever the package
/// name holds a dot.
pub proof fn lemma_path_is_relative(package: Seq<char>, file_name: Seq<char>)
    requires
        valid_package_ident(package),
    ensures
        path_in(package_dir(package), file_name).len() == package.len() + 1 + file_name.len(),
        path_in(package_dir(package), file_name)[0] == package[0],
        is_ascii_lowercase(path_in(package_dir(package), file_name)[0]),
        forall|i: int|
            0 <= i < package.len() ==> (#[trigger] path_in(package_dir(package), file_name)[i]
                == '/' <==> package[i] == '.' || package[i] == '/'),
        path_in(package_dir(package), file_name)[package.len() as int] == '/',
        path_in(package_dir(package), file_name).skip(package.len() as int + 1) == file_name,
{
    lemma_package_starts_with_name(package);
}

/// The directory of `package`.
pub fn package_directory(package: &str) -> (directory: String)
    ensures
        directory@ == package_dir(package@),
{
    replace_char(package, '.', '/')
}

/// The file `file_name` in `directory` with the text `text`, encoded as UTF-8.
pub fn output_file(directory: &str, file_name: &str, text: String) -> (file: OutputFile)
    ensures
        file@ == (OutputFileView {
            path: path_in(directory@, file_name@),
            contents: encode_utf8(text@),
        }),
{
    let mut path = String::from_str(directory);
    path.append("/");
    path.append(file_name);
    proof {
        reveal_strlit("/");
        assert("/"@ == seq!['/']);
    }
    OutputFile { path, contents: text.as_str().as_bytes_vec() }
}

} // verus!
