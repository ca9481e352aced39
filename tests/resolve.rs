use project_base_directory::error::Error;
use project_base_directory::project::{
    get_project_id, get_project_root, read_project_id, Discovery, Environment, IdFile, Project,
};
use project_base_directory::text::{join_path, trim, valid_id};

fn s(v: &str) -> String {
    v.to_string()
}

fn env_with_root(root: &str) -> Environment {
    Environment {
        prj_root: Some(s(root)),
        ..Environment::default()
    }
}

#[test]
fn root_from_variable_ignores_discovery() {
    let env = env_with_root("/p");
    for repo in [
        Discovery::Disabled,
        Discovery::Completed(None),
        Discovery::Completed(Some(s("/repo"))),
        Discovery::Failed(s("corrupt")),
    ] {
        let p = Project::discover(&env, repo, IdFile::Missing).unwrap();
        assert_eq!(p.root_directory, Some(s("/p")));
    }
}

#[test]
fn root_from_variable_need_not_exist() {
    let env = env_with_root("/does/not/exist");
    assert!(!env.needs_discovery());
    let r = get_project_root(&env, Discovery::Disabled).unwrap();
    assert_eq!(r, Some(s("/does/not/exist")));
}

#[test]
fn root_from_repository() {
    let env = Environment::default();
    assert!(env.needs_discovery());
    let r = get_project_root(&env, Discovery::Completed(Some(s("/work/tree")))).unwrap();
    assert_eq!(r, Some(s("/work/tree")));
}

#[test]
fn discovery_failure_is_an_error() {
    let env = Environment::default();
    let r = Project::discover(&env, Discovery::Failed(s("bad metadata")), IdFile::Missing);
    assert_eq!(r, Err(Error::RepositoryDiscoveryFailed(s("bad metadata"))));
}

#[test]
fn no_root_raw_then_not_found() {
    let env = Environment::default();
    for repo in [Discovery::Disabled, Discovery::Completed(None)] {
        let raw = Project::discover(&env, repo.clone(), IdFile::Missing).unwrap();
        assert_eq!(raw, Project::default());
        let r = Project::discover_and_assume(&env, repo, s("/cwd"), IdFile::Missing, IdFile::Missing);
        assert_eq!(r, Err(Error::ProjectRootNotFound(s("/cwd"))));
    }
}

#[test]
fn resolving_twice_gives_the_same_record() {
    let env = Environment {
        prj_root: Some(s("/r")),
        prj_cache: Some(s("/tmp/c")),
        ..Environment::default()
    };
    let a = Project::discover_and_assume(
        &env,
        Discovery::Disabled,
        s("/cwd"),
        IdFile::Missing,
        IdFile::Contents(s("id-1\n")),
    );
    let b = Project::discover_and_assume(
        &env,
        Discovery::Disabled,
        s("/cwd"),
        IdFile::Missing,
        IdFile::Contents(s("id-1\n")),
    );
    assert_eq!(a, b);
    assert_eq!(format!("{:?}", a), format!("{:?}", b));
}

#[test]
fn defaults_under_root() {
    let env = env_with_root("/x");
    let p = Project::discover_and_assume(
        &env,
        Discovery::Disabled,
        s("/cwd"),
        IdFile::Missing,
        IdFile::Missing,
    )
    .unwrap();
    assert_eq!(p.root_directory, Some(s("/x")));
    assert_eq!(p.config_home, Some(s("/x/.config")));
    assert_eq!(p.cache_home, Some(s("/x/.cache")));
    assert_eq!(p.data_home, Some(s("/x/.data")));
    assert_eq!(p.project_id, None);
}

#[test]
fn defaults_keep_overrides() {
    let env = Environment {
        prj_root: Some(s("/x")),
        prj_config_home: Some(s("/etc/p")),
        prj_data_home: Some(s("/var/p")),
        ..Environment::default()
    };
    let p = Project::discover(&env, Discovery::Disabled, IdFile::Missing)
        .unwrap()
        .fill_defaults(s("/cwd"))
        .unwrap();
    assert_eq!(p.config_home, Some(s("/etc/p")));
    assert_eq!(p.data_home, Some(s("/var/p")));
    assert_eq!(p.cache_home, Some(s("/x/.cache")));
}

#[test]
fn defaults_under_root_with_trailing_slash() {
    let p = Project {
        root_directory: Some(s("/x/")),
        ..Project::default()
    };
    let p = p.fill_defaults(s("/cwd")).unwrap();
    assert_eq!(p.config_home, Some(s("/x/.config")));
}

#[test]
fn id_variable_wins_over_file() {
    let env = Environment {
        prj_root: Some(s("/x")),
        prj_config_home: Some(s("/x/.config")),
        prj_id: Some(s("abc")),
        ..Environment::default()
    };
    assert_eq!(env.id_file_path(), None);
    let p = Project::discover_and_assume(
        &env,
        Discovery::Disabled,
        s("/cwd"),
        IdFile::Contents(s("def")),
        IdFile::Contents(s("def")),
    )
    .unwrap();
    assert_eq!(p.project_id, Some(s("abc")));
}

#[test]
fn empty_id_variable_is_used() {
    let env = Environment {
        prj_config_home: Some(s("/x/.config")),
        prj_id: Some(s("")),
        ..Environment::default()
    };
    let id = get_project_id(&env, IdFile::Contents(s("def"))).unwrap();
    assert_eq!(id, Some(s("")));
}

#[test]
fn id_from_file_is_trimmed() {
    let env = Environment {
        prj_root: Some(s("/x")),
        prj_config_home: Some(s("/x/.config")),
        ..Environment::default()
    };
    assert_eq!(env.id_file_path(), Some(s("/x/.config/prj_id")));
    let p = Project::discover(&env, Discovery::Disabled, IdFile::Contents(s("  zzz\n"))).unwrap();
    assert_eq!(p.project_id, Some(s("zzz")));
}

#[test]
fn id_from_defaulted_config_home() {
    let env = env_with_root("/x");
    assert_eq!(env.id_file_path(), None);
    let p = Project::discover(&env, Discovery::Disabled, IdFile::Missing)
        .unwrap()
        .fill_defaults(s("/cwd"))
        .unwrap();
    assert_eq!(p.id_file_path(), Some(s("/x/.config/prj_id")));
    let p = p.with_id_file(IdFile::Contents(s("\tproj_01 \r\n"))).unwrap();
    assert_eq!(p.project_id, Some(s("proj_01")));
    assert_eq!(p.id_file_path(), None);
}

#[test]
fn missing_id_file_is_not_an_error() {
    let env = Environment {
        prj_config_home: Some(s("/c")),
        ..Environment::default()
    };
    assert_eq!(get_project_id(&env, IdFile::Missing), Ok(None));
}

#[test]
fn id_file_read_failure_is_an_error() {
    let env = Environment {
        prj_root: Some(s("/x")),
        ..Environment::default()
    };
    let r = Project::discover_and_assume(
        &env,
        Discovery::Disabled,
        s("/cwd"),
        IdFile::Missing,
        IdFile::ReadFailed(s("permission denied")),
    );
    assert_eq!(r, Err(Error::IoFailure(s("permission denied"))));
}

#[test]
fn malformed_id_file_gives_no_id() {
    assert_eq!(read_project_id(IdFile::Contents(s(" has space \n"))), Ok(None));
    assert_eq!(read_project_id(IdFile::Contents("a".repeat(33))), Ok(None));
    assert_eq!(read_project_id(IdFile::Contents("b".repeat(32))), Ok(Some("b".repeat(32))));
    assert_eq!(read_project_id(IdFile::Contents(s("  \n"))), Ok(Some(s(""))));
}

#[test]
fn trimming_and_ids() {
    assert_eq!(trim("  zzz\n"), "zzz");
    assert_eq!(trim("\u{3000}a b\u{85}"), "a b");
    assert_eq!(trim(" \t "), "");
    assert_eq!(trim(""), "");
    assert!(valid_id("Ab-9_z"));
    assert!(valid_id(""));
    assert!(!valid_id("a.b"));
    assert!(!valid_id("é"));
}

#[test]
fn joining_paths() {
    assert_eq!(join_path("/x", ".config"), "/x/.config");
    assert_eq!(join_path("/x/", ".config"), "/x/.config");
    assert_eq!(join_path("", ".config"), ".config");
}

#[test]
fn error_messages() {
    assert_eq!(
        Error::ProjectRootNotFound(s("/cwd")).message(),
        "failed to find project root directory in search from /cwd"
    );
    assert_eq!(Error::IoFailure(s("x")).message(), "failed to read the project id file: x");
}

#[test]
fn malformed_id_file_does_not_stop_resolution() {
    let env = Environment {
        prj_root: Some(s("/x")),
        prj_config_home: Some(s("/x/.config")),
        ..Environment::default()
    };
    let p = Project::discover_and_assume(
        &env,
        Discovery::Disabled,
        s("/cwd"),
        IdFile::Contents(s("a b\n")),
        IdFile::Contents(s("a b\n")),
    )
    .unwrap();
    assert_eq!(p.root_directory, Some(s("/x")));
    assert_eq!(p.project_id, None);
    assert_eq!(p.config_home, Some(s("/x/.config")));
}
