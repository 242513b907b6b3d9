use ghaction_trigger::{github_env, static_env_vars, static_vol_mounts};

#[test]
fn static_env_vars_mark_a_ci_run() {
    assert_eq!(static_env_vars(), vec![("GITHUB_ACTIONS", "true"), ("CI", "true")]);
}

#[test]
fn static_vol_mounts_are_the_four_runner_directories() {
    assert_eq!(
        static_vol_mounts(),
        vec![
            ("/home/runner/work/_temp/_github_home", "/github/home"),
            ("/home/runner/work/_temp/_github_workflow", "/github/workflow"),
            ("/home/runner/work/_temp/_runner_file_commands", "/github/file_commands"),
            ("/home/runner/work/conditioner/conditioner", "/github/workspace"),
        ]
    );
}

#[test]
fn github_env_lists_fifty_names_in_order() {
    let names = github_env();
    assert_eq!(names.len(), 50);
    assert_eq!(names[0], "INPUT_WORKDIR");
    assert_eq!(names[2], "HOME");
    assert_eq!(names[38], "GITHUB_OUTPUT");
    assert_eq!(names[49], "ACTIONS_RESULTS_URL");
}
