//! Where a configuration file lives: the platform's per-user configuration
//! directory of the application, and the path algebra the library needs.
//!
//! Paths are texts here. What the standard library makes of a path (its
//! parent, the path with another extension, two paths joined, its quoted
//! form) is given a name, and the contracts speak of those names.

use vstd::prelude::*;
use directories_next::ProjectDirs;
use std::path::Path;
use std::path::PathBuf;
use crate::codec::EXTENSION;
use crate::error::ConfyError;

verus! {

/// `directories_next::ProjectDirs`, the platform's directories of one
/// application.
#[verifier::external_type_specification]
#[verifier::external_body]
pub struct ExProjectDirs(ProjectDirs);

/// `ProjectDirs::from`: the directories of an application, or nothing where
/// the system gives no home directory. The answer depends on the
/// environment, so nothing is claimed of it.
pub assume_specification[ ProjectDirs::from ](
    qualifier: &str,
    organization: &str,
    application: &str,
) -> Option<ProjectDirs>;

/// The parent of a path as `std::path::Path::parent` computes it on the
/// platform the library is built for.
pub uninterp spec fn parent_of(path: Seq<char>) -> Option<Seq<char>>;

/// A path after `std::path::PathBuf::set_extension`.
pub uninterp spec fn with_extension(path: Seq<char>, extension: Seq<char>) -> Seq<char>;

/// A directory and a file name after `std::path::Path::join`.
pub uninterp spec fn joined(directory: Seq<char>, file: Seq<char>) -> Seq<char>;

/// A path as its `Debug` implementation prints it: quoted and escaped.
pub uninterp spec fn quoted(path: Seq<char>) -> Seq<char>;

/// True where a text holds neither `/` nor `\`, the characters that can
/// separate the components of a path.
pub open spec fn separator_free(text: Seq<char>) -> bool {
    forall|i: int| 0 <= i < text.len() ==> #[trigger] text[i] != '/' && text[i] != '\\'
}

/// Calls `Path::parent` on the text read as a path, and hands the parent
/// back as text. Claims that the answer is the named parent, and what the
/// standard library documents of two paths: the root `/` and the empty path
/// have no parent.
#[verifier::external_body]
pub(crate) fn parent(path: &str) -> (found: Option<String>)
    ensures
        match parent_of(path@) {
            Some(directory) => found is Some && found->Some_0@ == directory,
            None => found is None,
        },
        path@ == seq!['/'] || path@.len() == 0 ==> found is None,
{
    match Path::new(path).parent() {
        Some(directory) => Some(directory.to_string_lossy().into_owned()),
        None => None,
    }
}

/// Calls `PathBuf::set_extension` on a copy of the path. The standard
/// library refuses an extension that holds a separator, so callers must not
/// pass one. Claims only that the answer is the named path.
#[verifier::external_body]
pub(crate) fn replace_extension(path: &str, extension: &str) -> (replaced: String)
    requires
        separator_free(extension@),
    ensures
        replaced@ == with_extension(path@, extension@),
{
    let mut buffer = PathBuf::from(path);
    buffer.set_extension(extension);
    buffer.to_string_lossy().into_owned()
}

/// Calls `Path::join`. Claims only that the answer is the named path.
#[verifier::external_body]
pub(crate) fn join(directory: &str, file: &str) -> (whole: String)
    ensures
        whole@ == joined(directory@, file@),
{
    Path::new(directory).join(file).to_string_lossy().into_owned()
}

/// Prints the path with its `Debug` implementation. Claims only that the
/// answer is the named text.
#[verifier::external_body]
pub(crate) fn quote(path: &str) -> (shown: String)
    ensures
        shown@ == quoted(path@),
{
    format!("{:?}", Path::new(path))
}

/// Calls `ProjectDirs::config_dir` and hands the directory back as text, or,
/// where it is not valid Unicode, as its `Debug` implementation prints it.
/// The directory was fixed by the environment, so nothing is claimed of it.
#[verifier::external_body]
fn config_directory(project: &ProjectDirs) -> (directory: Result<String, String>) {
    let path = project.config_dir();
    match path.to_str() {
        Some(text) => Ok(text.to_string()),
        None => Err(format!("{:?}", path)),
    }
}

/// What the platform answered when asked for an application's configuration
/// directory.
pub enum Located {
    /// The system gave no home directory.
    Nowhere,
    /// The directory is not valid Unicode; the text is its quoted form.
    Unreadable(String),
    /// The directory, as text.
    At(String),
}

/// Name of the configuration file when the caller gives none.
pub const DEFAULT_NAME: &'static str = "default-config";

/// The file's name: the configuration's name, a dot, and the extension.
pub open spec fn file_name(config_name: Option<Seq<char>>) -> Seq<char> {
    let stem = match config_name {
        Some(name) => name,
        None => DEFAULT_NAME@,
    };
    stem + "."@ + EXTENSION@
}

/// A caller's optional configuration name as the contracts read it.
pub open spec fn name_of(config_name: Option<&str>) -> Option<Seq<char>> {
    match config_name {
        Some(name) => Some(name@),
        None => None,
    }
}

/// What `path_in` owes for each answer of the platform: without a home, or
/// with a directory that is no text, a bad-directory failure that says so;
/// otherwise the directory joined with the file's name.
pub open spec fn resolves_to(
    located: Located,
    config_name: Option<Seq<char>>,
    outcome: Result<String, ConfyError>,
) -> bool {
    match located {
        Located::Nowhere => outcome is Err && outcome->Err_0.is_bad_directory(
            "could not determine home directory path"@,
        ),
        Located::Unreadable(shown) => outcome is Err && outcome->Err_0.is_bad_directory(
            shown@ + " is not valid Unicode"@,
        ),
        Located::At(directory) => outcome is Ok && outcome->Ok_0@ == joined(
            directory@,
            file_name(config_name),
        ),
    }
}

/// Asks the platform for the configuration directory of an application.
/// The answer is the environment's; each of the three can come back.
fn locate(app_name: &str) -> (located: Located) {
    match ProjectDirs::from("rs", "", app_name) {
        None => Located::Nowhere,
        Some(project) => match config_directory(&project) {
            Ok(directory) => Located::At(directory),
            Err(shown) => Located::Unreadable(shown),
        },
    }
}

/// Builds the file's path from the platform's answer. Touches nothing on
/// disk and creates no directory.
pub fn path_in(located: Located, config_name: Option<&str>) -> (outcome: Result<
    String,
    ConfyError,
>)
    ensures
        resolves_to(located, name_of(config_name), outcome),
{
    match located {
        Located::Nowhere => Err(
            ConfyError::BadConfigDirectory(
                String::from_str("could not determine home directory path"),
            ),
        ),
        Located::Unreadable(shown) => Err(
            ConfyError::BadConfigDirectory(shown.concat(" is not valid Unicode")),
        ),
        Located::At(directory) => {
            let stem = match config_name {
                Some(name) => name,
                None => DEFAULT_NAME,
            };
            let file = String::from_str(stem).concat(".").concat(EXTENSION);
            Ok(join(directory.as_str(), file.as_str()))
        },
    }
}

/// The path of the configuration file that `load` and `store` use for an
/// application: inside the platform's configuration directory, named after
/// the configuration, or `default-config` where no name is given. Fails only
/// with a bad-directory failure, where the platform names no usable
/// directory.
pub fn get_configuration_file_path(app_name: &str, config_name: Option<&str>) -> (outcome: Result<
    String,
    ConfyError,
>)
    ensures
        outcome is Err ==> outcome->Err_0 is BadConfigDirectory,
        outcome is Ok ==> exists|directory: Seq<char>|
            outcome->Ok_0@ == #[trigger] joined(directory, file_name(name_of(config_name))),
{
    path_in(locate(app_name), config_name)
}

} // verus!
