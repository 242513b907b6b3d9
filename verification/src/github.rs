//! The fixed tables of the GitHub Actions runner: the variables forwarded to a
//! guest, the pairs that mark a CI run, and the runner directories a guest sees.

use vstd::prelude::*;

verus! {

/// Names of the runner's variables that are forwarded when the host defines them.
pub open spec fn github_env_names() -> Seq<Seq<char>> {
    seq![
        "INPUT_WORKDIR"@,
        "INPUT_KREW_TEMPLATE_FILE"@,
        "HOME"@,
        "GITHUB_JOB"@,
        "GITHUB_REF"@,
        "GITHUB_SHA"@,
        "GITHUB_REPOSITORY"@,
        "GITHUB_REPOSITORY_OWNER"@,
        "GITHUB_REPOSITORY_OWNER_ID"@,
        "GITHUB_RUN_ID"@,
        "GITHUB_RUN_NUMBER"@,
        "GITHUB_RETENTION_DAYS"@,
        "GITHUB_RUN_ATTEMPT"@,
        "GITHUB_REPOSITORY_ID"@,
        "GITHUB_ACTOR_ID"@,
        "GITHUB_ACTOR"@,
        "GITHUB_TRIGGERING_ACTOR"@,
        "GITHUB_WORKFLOW"@,
        "GITHUB_HEAD_REF"@,
        "GITHUB_BASE_REF"@,
        "GITHUB_EVENT_NAME"@,
        "GITHUB_SERVER_URL"@,
        "GITHUB_API_URL"@,
        "GITHUB_GRAPHQL_URL"@,
        "GITHUB_REF_NAME"@,
        "GITHUB_REF_PROTECTED"@,
        "GITHUB_REF_TYPE"@,
        "GITHUB_WORKFLOW_REF"@,
        "GITHUB_WORKFLOW_SHA"@,
        "GITHUB_WORKSPACE"@,
        "GITHUB_ACTION"@,
        "GITHUB_EVENT_PATH"@,
        "GITHUB_ACTION_REPOSITORY"@,
        "GITHUB_ACTION_REF"@,
        "GITHUB_PATH"@,
        "GITHUB_ENV"@,
        "GITHUB_STEP_SUMMARY"@,
        "GITHUB_STATE"@,
        "GITHUB_OUTPUT"@,
        "RUNNER_OS"@,
        "RUNNER_ARCH"@,
        "RUNNER_NAME"@,
        "RUNNER_ENVIRONMENT"@,
        "RUNNER_TOOL_CACHE"@,
        "RUNNER_TEMP"@,
        "RUNNER_WORKSPACE"@,
        "ACTIONS_RUNTIME_URL"@,
        "ACTIONS_RUNTIME_TOKEN"@,
        "ACTIONS_CACHE_URL"@,
        "ACTIONS_RESULTS_URL"@,
    ]
}

/// The pairs every guest gets, whatever the host defines.
pub open spec fn static_env_pairs() -> Seq<(Seq<char>, Seq<char>)> {
    seq![("GITHUB_ACTIONS"@, "true"@), ("CI"@, "true"@)]
}

/// The runner directories, each as (host path, guest path).
pub open spec fn static_mount_pairs() -> Seq<(Seq<char>, Seq<char>)> {
    seq![
        ("/home/runner/work/_temp/_github_home"@, "/github/home"@),
        ("/home/runner/work/_temp/_github_workflow"@, "/github/workflow"@),
        ("/home/runner/work/_temp/_runner_file_commands"@, "/github/file_commands"@),
        ("/home/runner/work/conditioner/conditioner"@, "/github/workspace"@),
    ]
}

/// The forwarded variable names, in the order in which they are looked up.
pub fn github_env() -> (names: Vec<&'static str>)
    ensures
        names.deep_view() == github_env_names(),
{
    let names = vec![
        "INPUT_WORKDIR",
        "INPUT_KREW_TEMPLATE_FILE",
        "HOME",
        "GITHUB_JOB",
        "GITHUB_REF",
        "GITHUB_SHA",
        "GITHUB_REPOSITORY",
        "GITHUB_REPOSITORY_OWNER",
        "GITHUB_REPOSITORY_OWNER_ID",
        "GITHUB_RUN_ID",
        "GITHUB_RUN_NUMBER",
        "GITHUB_RETENTION_DAYS",
        "GITHUB_RUN_ATTEMPT",
        "GITHUB_REPOSITORY_ID",
        "GITHUB_ACTOR_ID",
        "GITHUB_ACTOR",
        "GITHUB_TRIGGERING_ACTOR",
        "GITHUB_WORKFLOW",
        "GITHUB_HEAD_REF",
        "GITHUB_BASE_REF",
        "GITHUB_EVENT_NAME",
        "GITHUB_SERVER_URL",
        "GITHUB_API_URL",
        "GITHUB_GRAPHQL_URL",
        "GITHUB_REF_NAME",
        "GITHUB_REF_PROTECTED",
        "GITHUB_REF_TYPE",
        "GITHUB_WORKFLOW_REF",
        "GITHUB_WORKFLOW_SHA",
        "GITHUB_WORKSPACE",
        "GITHUB_ACTION",
        "GITHUB_EVENT_PATH",
        "GITHUB_ACTION_REPOSITORY",
        "GITHUB_ACTION_REF",
        "GITHUB_PATH",
        "GITHUB_ENV",
        "GITHUB_STEP_SUMMARY",
        "GITHUB_STATE",
        "GITHUB_OUTPUT",
        "RUNNER_OS",
        "RUNNER_ARCH",
        "RUNNER_NAME",
        "RUNNER_ENVIRONMENT",
        "RUNNER_TOOL_CACHE",
        "RUNNER_TEMP",
        "RUNNER_WORKSPACE",
        "ACTIONS_RUNTIME_URL",
        "ACTIONS_RUNTIME_TOKEN",
        "ACTIONS_CACHE_URL",
        "ACTIONS_RESULTS_URL",
    ];
    assert(names.deep_view() =~= github_env_names());
    names
}

/// The two pairs that mark the process as running under GitHub Actions.
pub fn static_env_vars() -> (pairs: Vec<(&'static str, &'static str)>)
    ensures
        pairs.deep_view() == static_env_pairs(),
{
    let pairs = vec![("GITHUB_ACTIONS", "true"), ("CI", "true")];
    assert(pairs.deep_view() =~= static_env_pairs());
    pairs
}

/// The four runner directories that are bound into the guest, read-write.
pub fn static_vol_mounts() -> (mounts: Vec<(&'static str, &'static str)>)
    ensures
        mounts.deep_view() == static_mount_pairs(),
{
    let mounts = vec![
        ("/home/runner/work/_temp/_github_home", "/github/home"),
        ("/home/runner/work/_temp/_github_workflow", "/github/workflow"),
        ("/home/runner/work/_temp/_runner_file_commands", "/github/file_commands"),
        ("/home/runner/work/conditioner/conditioner", "/github/workspace"),
    ];
    assert(mounts.deep_view() =~= static_mount_pairs());
    mounts
}

} // verus!
