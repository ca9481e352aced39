//! Properties of resolution and export that hold across inputs and calls.
use vstd::prelude::*;

use crate::constants::{DEFAULT_CACHE_HOME, DEFAULT_CONFIG_HOME, DEFAULT_DATA_HOME, PROJECT_ROOT};
use crate::error::ErrorModel;
use crate::export::{entries_of, files_of, lines_of};
use crate::project::{
    discovered,
    id_of,
    resolved,
    root_of,
    with_defaults,
    DiscoveryModel,
    EnvironmentModel,
    IdFileModel,
    ProjectModel,
};

verus! {

/// Where `PRJ_ROOT` is set to `p`, the root is `p` whatever the repository
/// search would give: discovery and resolution do not depend on the search,
/// and the root of any record they yield is `p`. Where no identifier file
/// fails to read, whatever the files hold, resolution with defaults succeeds.
pub proof fn root_override(
    env: EnvironmentModel,
    repo: DiscoveryModel,
    other: DiscoveryModel,
    cwd: Seq<char>,
    first: IdFileModel,
    second: IdFileModel,
    p: Seq<char>,
)
    requires
        env.prj_root == Some(p),
    ensures
        root_of(env, repo) == Ok::<Option<Seq<char>>, ErrorModel>(Some(p)),
        discovered(env, repo, first) == discovered(env, other, first),
        resolved(env, repo, cwd, first, second) == resolved(env, other, cwd, first, second),
        discovered(env, repo, first) is Ok ==> discovered(env, repo, first)->Ok_0.root_directory
            == Some(p),
        resolved(env, repo, cwd, first, second) is Ok ==> resolved(
            env,
            repo,
            cwd,
            first,
            second,
        )->Ok_0.root_directory == Some(p),
        !(first is ReadFailed) && !(second is ReadFailed) ==> resolved(
            env,
            repo,
            cwd,
            first,
            second,
        ) is Ok,
{
}

/// Where `PRJ_ROOT` is unset and the search finds no repository (or cannot
/// run), discovery yields no root, and resolution with defaults fails with
/// `ProjectRootNotFound` naming the working directory. (Only an unreadable
/// identifier file, which discovery reports first, fails otherwise.)
pub proof fn no_root_without_discovery(
    env: EnvironmentModel,
    repo: DiscoveryModel,
    cwd: Seq<char>,
    first: IdFileModel,
    second: IdFileModel,
)
    requires
        env.prj_root is None,
        repo is Disabled || repo == DiscoveryModel::Completed(None),
        id_of(env, first) is Ok,
    ensures
        root_of(env, repo) == Ok::<Option<Seq<char>>, ErrorModel>(None),
        discovered(env, repo, first) is Ok,
        discovered(env, repo, first)->Ok_0.root_directory is None,
        resolved(env, repo, cwd, first, second) == Err::<ProjectModel, ErrorModel>(
            ErrorModel::ProjectRootNotFound(cwd),
        ),
{
}

/// Resolving twice from the same environment, search outcome, working
/// directory and files gives the same record or the same error.
pub proof fn resolution_is_deterministic(
    env1: EnvironmentModel,
    env2: EnvironmentModel,
    repo1: DiscoveryModel,
    repo2: DiscoveryModel,
    cwd1: Seq<char>,
    cwd2: Seq<char>,
    first1: IdFileModel,
    first2: IdFileModel,
    second1: IdFileModel,
    second2: IdFileModel,
)
    requires
        env1 == env2,
        repo1 == repo2,
        cwd1 == cwd2,
        first1 == first2,
        second1 == second2,
    ensures
        discovered(env1, repo1, first1) == discovered(env2, repo2, first2),
        resolved(env1, repo1, cwd1, first1, second1) == resolved(
            env2,
            repo2,
            cwd2,
            first2,
            second2,
        ),
{
}

/// With root `x` (not empty, not ending in `/`), each unset directory becomes
/// `x/.config`, `x/.data` or `x/.cache`; a set one is kept.
pub proof fn defaulting(p: ProjectModel, cwd: Seq<char>, x: Seq<char>)
    requires
        p.root_directory == Some(x),
        x.len() > 0,
        x.last() != '/',
    ensures
        with_defaults(p, cwd) is Ok,
        with_defaults(p, cwd)->Ok_0.root_directory == Some(x),
        with_defaults(p, cwd)->Ok_0.project_id == p.project_id,
        p.config_home is None ==> with_defaults(p, cwd)->Ok_0.config_home == Some(
            x + seq!['/'] + DEFAULT_CONFIG_HOME@,
        ),
        p.data_home is None ==> with_defaults(p, cwd)->Ok_0.data_home == Some(
            x + seq!['/'] + DEFAULT_DATA_HOME@,
        ),
        p.cache_home is None ==> with_defaults(p, cwd)->Ok_0.cache_home == Some(
            x + seq!['/'] + DEFAULT_CACHE_HOME@,
        ),
        p.config_home is Some ==> with_defaults(p, cwd)->Ok_0.config_home == p.config_home,
        p.data_home is Some ==> with_defaults(p, cwd)->Ok_0.data_home == p.data_home,
        p.cache_home is Some ==> with_defaults(p, cwd)->Ok_0.cache_home == p.cache_home,
{
}

/// Where `PRJ_ID` is set to `i`, the identifier is `i` whatever the
/// identifier files hold, in discovery and in resolution with defaults.
pub proof fn id_precedence(
    env: EnvironmentModel,
    repo: DiscoveryModel,
    cwd: Seq<char>,
    first: IdFileModel,
    second: IdFileModel,
    i: Seq<char>,
)
    requires
        env.prj_id == Some(i),
    ensures
        id_of(env, first) == Ok::<Option<Seq<char>>, ErrorModel>(Some(i)),
        discovered(env, repo, first) is Ok ==> discovered(env, repo, first)->Ok_0.project_id
            == Some(i),
        resolved(env, repo, cwd, first, second) is Ok ==> resolved(
            env,
            repo,
            cwd,
            first,
            second,
        )->Ok_0.project_id == Some(i),
{
}

/// A record with only its root `r` set exports exactly one line,
/// `PRJ_ROOT=r`, and exactly one file, `PRJ_ROOT`, holding `r`.
pub proof fn export_of_root_only(p: ProjectModel, r: Seq<char>)
    requires
        p.root_directory == Some(r),
        p.project_id is None,
        p.config_home is None,
        p.cache_home is None,
        p.data_home is None,
    ensures
        lines_of(entries_of(p), false) == seq![PROJECT_ROOT@ + "="@ + r],
        files_of(entries_of(p)) == seq![(PROJECT_ROOT@, r)],
{
    let e = entries_of(p);
    assert(e.drop_last().drop_last().drop_last().drop_last().drop_last() =~= seq![]);
    assert(lines_of(e, false) =~= seq![PROJECT_ROOT@ + "="@ + r]) by {
        reveal_with_fuel(lines_of, 6);
    }
    assert(files_of(e) =~= seq![(PROJECT_ROOT@, r)]) by {
        reveal_with_fuel(files_of, 6);
    }
}

} // verus!
