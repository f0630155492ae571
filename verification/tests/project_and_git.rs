use std::path::MAIN_SEPARATOR;

use rocat_deploy::git::{branch_name, get_current_branch, GitOutput};
use rocat_deploy::project::{
    check_config_file, parse_project, project_path, ProjectPathKind, ProjectPaths, ProjectStep,
};

const GIT_ERROR: &str = "Unable to determine git branch. Are you in a git repository?";

#[test]
fn project_path_defaults_to_current_directory() {
    assert_eq!(project_path(None), ".");
    assert_eq!(project_path(Some("game")), "game");
}

#[test]
fn directory_project_reads_rocat_yml_inside_it() {
    match parse_project(Some("game"), ProjectPathKind::Directory) {
        ProjectStep::CheckConfigFile(paths) => {
            assert_eq!(paths.project_dir, "game");
            assert_eq!(paths.config_file, format!("game{}rocat.yml", MAIN_SEPARATOR));
        }
        other => panic!("unexpected step {:?}", other),
    }
    match parse_project(None, ProjectPathKind::Directory) {
        ProjectStep::CheckConfigFile(paths) => {
            assert_eq!(paths.project_dir, ".");
            assert_eq!(paths.config_file, format!(".{}rocat.yml", MAIN_SEPARATOR));
        }
        other => panic!("unexpected step {:?}", other),
    }
}

#[test]
fn file_project_is_its_own_config() {
    match parse_project(Some("game/deploy.yml"), ProjectPathKind::File) {
        ProjectStep::CheckConfigFile(paths) => {
            assert_eq!(paths.project_dir, "game");
            assert_eq!(paths.config_file, "game/deploy.yml");
        }
        other => panic!("unexpected step {:?}", other),
    }
    match parse_project(Some("deploy.yml"), ProjectPathKind::File) {
        ProjectStep::CheckConfigFile(paths) => {
            assert_eq!(paths.project_dir, "");
            assert_eq!(paths.config_file, "deploy.yml");
        }
        other => panic!("unexpected step {:?}", other),
    }
}

#[test]
fn missing_project_path_is_an_error() {
    match parse_project(Some("nowhere"), ProjectPathKind::Neither) {
        ProjectStep::Failed(message) => {
            assert_eq!(message, "Unable to parse project path: nowhere")
        }
        other => panic!("unexpected step {:?}", other),
    }
}

#[test]
fn config_file_must_exist() {
    let paths = || ProjectPaths {
        project_dir: "game".to_string(),
        config_file: "game/rocat.yml".to_string(),
    };
    let found = check_config_file(paths(), true).unwrap();
    assert_eq!(found.project_dir, "game");
    assert_eq!(found.config_file, "game/rocat.yml");
    assert_eq!(
        check_config_file(paths(), false).unwrap_err(),
        "Config file does not exist: game/rocat.yml"
    );
}

#[test]
fn branch_is_read_from_git_output() {
    let output = GitOutput::Ran { success: true, stdout: b"feature/login\n".to_vec() };
    assert_eq!(get_current_branch(&output), Ok("feature/login".to_string()));
    let output = GitOutput::Ran { success: true, stdout: b"  main \r\n".to_vec() };
    assert_eq!(get_current_branch(&output), Ok("main".to_string()));
}

#[test]
fn failed_git_is_an_error() {
    let output = GitOutput::Ran { success: false, stdout: b"main\n".to_vec() };
    assert_eq!(get_current_branch(&output), Err(GIT_ERROR.to_string()));
}

#[test]
fn empty_git_output_is_an_error() {
    let output = GitOutput::Ran { success: true, stdout: b" \n".to_vec() };
    assert_eq!(get_current_branch(&output), Err(GIT_ERROR.to_string()));
    assert_eq!(branch_name(""), Err(GIT_ERROR.to_string()));
    assert_eq!(branch_name("dev"), Ok("dev".to_string()));
}

#[test]
fn git_that_cannot_run_reports_why() {
    let output = GitOutput::NotRun("No such file or directory".to_string());
    assert_eq!(
        get_current_branch(&output),
        Err(format!("{}\n\tNo such file or directory", GIT_ERROR))
    );
}

#[test]
fn directory_ending_in_separator_gets_no_second_one() {
    match parse_project(Some("game/"), ProjectPathKind::Directory) {
        ProjectStep::CheckConfigFile(paths) => {
            assert_eq!(paths.project_dir, "game/");
            assert_eq!(paths.config_file, "game/rocat.yml");
        }
        other => panic!("unexpected step {:?}", other),
    }
}

#[test]
fn nested_file_project_uses_its_directory() {
    match parse_project(Some("a/b/deploy.yml"), ProjectPathKind::File) {
        ProjectStep::CheckConfigFile(paths) => {
            assert_eq!(paths.project_dir, "a/b");
            assert_eq!(paths.config_file, "a/b/deploy.yml");
        }
        other => panic!("unexpected step {:?}", other),
    }
}

#[test]
fn unicode_whitespace_around_the_branch_is_removed() {
    let output = GitOutput::Ran {
        success: true,
        stdout: "\u{3000}release/2\u{a0}\n".as_bytes().to_vec(),
    };
    assert_eq!(get_current_branch(&output), Ok("release/2".to_string()));
}

#[test]
fn file_named_only_with_dots_is_a_project_file() {
    match parse_project(Some("..."), ProjectPathKind::File) {
        ProjectStep::CheckConfigFile(paths) => {
            assert_eq!(paths.project_dir, "");
            assert_eq!(paths.config_file, "...");
        }
        other => panic!("unexpected step {:?}", other),
    }
}

#[test]
fn no_project_is_the_current_directory() {
    match (parse_project(None, ProjectPathKind::Neither), parse_project(Some("."), ProjectPathKind::Neither)) {
        (ProjectStep::Failed(a), ProjectStep::Failed(b)) => assert_eq!(a, b),
        other => panic!("unexpected steps {:?}", other),
    }
}
