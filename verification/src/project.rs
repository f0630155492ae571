use vstd::prelude::*;
use vstd::string::*;

use crate::branch::has_no_backslash;

verus! {

/// What the file system says of the project path.
#[derive(Clone, Copy, Debug, PartialEq, Eq, Structural)]
pub enum ProjectPathKind {
    Directory,
    File,
    Neither,
}

/// The directory of a project and the configuration file that describes it.
#[derive(Debug)]
pub struct ProjectPaths {
    pub project_dir: String,
    pub config_file: String,
}

/// What `parse_project` needs next.
#[derive(Debug)]
pub enum ProjectStep {
    /// The project is described by `config_file` if that file exists; pass
    /// whether it does to `check_config_file`.
    CheckConfigFile(ProjectPaths),
    /// The project path names neither a directory nor a file.
    Failed(String),
}

/// The name of the configuration file inside a project directory.
pub open spec fn config_file_name() -> Seq<char> {
    "rocat.yml"@
}

/// The project path that was given, or the current directory.
pub open spec fn spec_project_path(project: Option<&str>) -> Seq<char> {
    match project {
        Some(p) => p@,
        None => "."@,
    }
}

/// The project path that was given, or the current directory.
pub fn project_path(project: Option<&str>) -> (r: &str)
    ensures
        r@ == spec_project_path(project),
{
    match project {
        Some(p) => p,
        None => ".",
    }
}

/// A file name that a path can be extended with: no separator, no drive.
pub open spec fn is_plain_file_name(name: Seq<char>) -> bool {
    &&& name.len() > 0
    &&& forall|i: int| 0 <= i < name.len() ==> name[i] != '/' && name[i] != '\\' && name[i] != ':'
}

/// A path that every platform reads alike: no backslash and no `:` (which
/// Windows reads as separator and drive), and no leading `//` (which Windows
/// reads as the start of a network share).
pub open spec fn is_plain_path(path: Seq<char>) -> bool {
    &&& has_no_backslash(path)
    &&& forall|i: int| 0 <= i < path.len() ==> path[i] != ':'
    &&& !(path.len() >= 2 && path[0] == '/' && path[1] == '/')
}

/// A path with a character other than `/` and `.`, hence with a named component.
pub open spec fn has_named_component(path: Seq<char>) -> bool {
    exists|i: int| 0 <= i < path.len() && path[i] != '/' && path[i] != '.'
}

/// `dir` extended with `name`: directly after an empty directory or one that
/// ends in `/`, else after the platform's separator.
pub open spec fn is_joined(dir: Seq<char>, name: Seq<char>, joined: Seq<char>) -> bool {
    if dir.len() == 0 || dir.last() == '/' {
        joined == dir + name
    } else {
        ||| joined == dir + seq!['/'] + name
        ||| joined == dir + seq!['\\'] + name
    }
}

/// `Path::join`: the path `dir` extended with the relative path `name`. The
/// contract states what the documentation of `PathBuf::push` says of a relative
/// path: it extends the path, adding the platform's separator where `dir` does
/// not already end in one. For a `dir` that platforms read differently (see
/// `is_plain_path`), such as one with a verbatim prefix that Windows normalises,
/// the result is left unsaid.
#[verifier::external_body]
fn join_path(dir: &str, name: &str) -> (r: String)
    requires
        is_plain_file_name(name@),
    ensures
        is_plain_path(dir@) ==> is_joined(dir@, name@, r@),
{
    std::path::Path::new(dir).join(name).to_string_lossy().into_owned()
}

/// What `Path::parent` gives for a path that every platform reads alike: the
/// path without its final component, or `None` where there is none.
pub uninterp spec fn path_parent(path: Seq<char>) -> Option<Seq<char>>;

/// The text of an optional string.
pub open spec fn optional_text(s: Option<String>) -> Option<Seq<char>> {
    match s {
        Some(s) => Some(s@),
        None => None,
    }
}

/// `Path::parent`: the path without its final component, or `None` for a path
/// that ends in a root or prefix and for the empty path, as its documentation
/// says. For a plain path the result is named by `path_parent`; the contract adds
/// that a path with a named component, which cannot end in a root or prefix, has
/// a parent, and that a parent is a shorter part at the start of the path. For
/// other paths which part it is depends on the platform's separators.
#[verifier::external_body]
fn parent_path(path: &str) -> (r: Option<String>)
    ensures
        is_plain_path(path@) ==> optional_text(r) == path_parent(path@),
        is_plain_path(path@) && has_named_component(path@) ==> r is Some,
        path@.len() == 0 ==> r is None,
        r matches Some(dir) ==> dir@.len() < path@.len() && path@.take(dir@.len() as int) == dir@,
{
    match std::path::Path::new(path).parent() {
        Some(dir) => Some(dir.to_string_lossy().into_owned()),
        None => None,
    }
}

/// The message given for a project path that is neither a directory nor a file.
pub open spec fn unusable_project_text(project: Seq<char>) -> Seq<char> {
    "Unable to parse project path: "@ + project
}

/// The message given for a configuration file that does not exist.
pub open spec fn missing_config_text(config_file: Seq<char>) -> Seq<char> {
    "Config file does not exist: "@ + config_file
}

/// The steps that `parse_project` may take for the project path `path` of the
/// given kind: `rocat.yml` joined to a directory; a file with its parent as the
/// project directory, failing only where the file has no parent; failure for a
/// path that is neither.
pub open spec fn project_step_allowed(path: Seq<char>, kind: ProjectPathKind, step: ProjectStep) -> bool {
    match step {
        ProjectStep::Failed(message) => {
            &&& kind != ProjectPathKind::Directory
            &&& kind == ProjectPathKind::File && is_plain_path(path) ==> path_parent(path) is None
            &&& !(kind == ProjectPathKind::File && is_plain_path(path) && has_named_component(path))
            &&& message@ == unusable_project_text(path)
        },
        ProjectStep::CheckConfigFile(paths) => match kind {
            ProjectPathKind::Directory => {
                &&& paths.project_dir@ == path
                &&& is_plain_path(path) ==> is_joined(path, config_file_name(), paths.config_file@)
            },
            ProjectPathKind::File => {
                &&& paths.config_file@ == path
                &&& is_plain_path(path) ==> path_parent(path) == Some(paths.project_dir@)
                &&& paths.project_dir@.len() < paths.config_file@.len()
                &&& paths.config_file@.take(paths.project_dir@.len() as int) == paths.project_dir@
            },
            ProjectPathKind::Neither => false,
        },
    }
}

/// Where the configuration of the project at `project` (the current directory
/// when none is given) is looked for, given what the file system says of that
/// path: `rocat.yml` inside a directory, or the file itself, whose directory is
/// then the project directory.
pub fn parse_project(project: Option<&str>, kind: ProjectPathKind) -> (r: ProjectStep)
    ensures
        project_step_allowed(spec_project_path(project), kind, r),
{
    let project = project_path(project);
    match kind {
        ProjectPathKind::Directory => {
            proof {
                reveal_strlit("rocat.yml");
            }
            let config_file = join_path(project, "rocat.yml");
            ProjectStep::CheckConfigFile(
                ProjectPaths { project_dir: project.to_owned(), config_file },
            )
        },
        ProjectPathKind::File => {
            match parent_path(project) {
                Some(project_dir) => ProjectStep::CheckConfigFile(
                    ProjectPaths { project_dir, config_file: project.to_owned() },
                ),
                None => {
                    let mut message = "Unable to parse project path: ".to_owned();
                    message.append(project);
                    ProjectStep::Failed(message)
                },
            }
        },
        ProjectPathKind::Neither => {
            let mut message = "Unable to parse project path: ".to_owned();
            message.append(project);
            ProjectStep::Failed(message)
        },
    }
}

/// No project path is the current directory: `parse_project` may take the same
/// steps for `None` as for `Some(".")`.
pub proof fn lemma_no_project_is_current_directory(kind: ProjectPathKind, step: ProjectStep)
    ensures
        project_step_allowed(spec_project_path(None), kind, step) == project_step_allowed(
            spec_project_path(Some(".")),
            kind,
            step,
        ),
{
}

/// The project paths, if their configuration file exists.
pub fn check_config_file(paths: ProjectPaths, config_file_exists: bool) -> (r: Result<
    ProjectPaths,
    String,
>)
    ensures
        match r {
            Ok(found) => {
                &&& config_file_exists
                &&& found.project_dir@ == paths.project_dir@
                &&& found.config_file@ == paths.config_file@
            },
            Err(message) => !config_file_exists && message@ == missing_config_text(
                paths.config_file@,
            ),
        },
{
    if config_file_exists {
        Ok(paths)
    } else {
        let mut message = "Config file does not exist: ".to_owned();
        message.append(paths.config_file.as_str());
        Err(message)
    }
}

} // verus!
