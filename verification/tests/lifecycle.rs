use clawhip::lifecycle::{
    after_answer, after_auth, after_star, begin_star_prompt, cargo_bin_dir, check_repo_root,
    config_dir, is_linked_build, is_truthy, star_prompt_disabled, update_build_args, StarNext,
    GITHUB_REPO,
};

/// Runs the dialogue with an answer and a way to run commands: what was printed.
fn run_star_prompt<F: FnMut(&[&str]) -> bool>(
    skip: bool,
    env: Option<&str>,
    interactive: bool,
    answer: Option<&str>,
    mut gh_command_succeeds: F,
) -> String {
    let mut printed = String::new();
    let mut step = begin_star_prompt(skip, env, interactive);
    loop {
        printed.push_str(&step.print);
        step = match step.next {
            StarNext::Done => return printed,
            StarNext::RunAuth(args) => {
                let args: Vec<&str> = args.iter().map(String::as_str).collect();
                after_auth(gh_command_succeeds(&args))
            }
            StarNext::ReadAnswer => after_answer(answer),
            StarNext::RunStar(args) => {
                let args: Vec<&str> = args.iter().map(String::as_str).collect();
                after_star(gh_command_succeeds(&args))
            }
        };
    }
}

#[test]
fn skip_flag_or_env_disables_star_prompt() {
    let mut gh_calls = Vec::<Vec<String>>::new();

    let stdout = run_star_prompt(true, Some("1"), true, None, |args| {
        gh_calls.push(args.iter().map(|arg| (*arg).to_string()).collect());
        true
    });

    assert!(gh_calls.is_empty());
    assert!(stdout.contains("skipping GitHub star prompt"));
}

#[test]
fn skips_star_prompt_when_not_interactive() {
    let mut gh_calls = Vec::<Vec<String>>::new();

    let output = run_star_prompt(false, None, false, None, |args| {
        gh_calls.push(args.iter().map(|arg| (*arg).to_string()).collect());
        true
    });

    assert!(gh_calls.is_empty());
    assert!(output.is_empty());
}

#[test]
fn skips_prompt_when_gh_is_unauthenticated() {
    let mut gh_calls = Vec::<Vec<String>>::new();

    let stdout = run_star_prompt(false, None, true, None, |args| {
        gh_calls.push(args.iter().map(|arg| (*arg).to_string()).collect());
        !matches!(args, ["auth", "status"])
    });

    assert_eq!(gh_calls, vec![vec![String::from("auth"), String::from("status")]]);
    assert!(!stdout.contains("Would you like to star"));
}

#[test]
fn stars_repo_only_after_explicit_yes() {
    let mut gh_calls = Vec::<Vec<String>>::new();

    let stdout = run_star_prompt(false, None, true, Some("y\n"), |args| {
        gh_calls.push(args.iter().map(|arg| (*arg).to_string()).collect());
        true
    });

    assert_eq!(
        gh_calls,
        vec![
            vec![String::from("auth"), String::from("status")],
            vec![
                String::from("api"),
                String::from("--method"),
                String::from("PUT"),
                format!("/user/starred/{GITHUB_REPO}"),
                String::from("--silent"),
            ],
        ]
    );
    assert!(stdout.contains("Would you like to star"));
    assert!(stdout.contains("thanks for starring"));
}

#[test]
fn star_failure_does_not_fail_the_install() {
    let mut gh_calls = Vec::<Vec<String>>::new();

    let stdout = run_star_prompt(false, None, true, Some("yes\n"), |args| {
        gh_calls.push(args.iter().map(|arg| (*arg).to_string()).collect());
        !matches!(
            args,
            ["api", "--method", "PUT", endpoint, "--silent"]
                if *endpoint == format!("/user/starred/{GITHUB_REPO}")
        )
    });

    assert_eq!(
        gh_calls,
        vec![
            vec![String::from("auth"), String::from("status")],
            vec![
                String::from("api"),
                String::from("--method"),
                String::from("PUT"),
                format!("/user/starred/{GITHUB_REPO}"),
                String::from("--silent"),
            ],
        ]
    );
    assert!(stdout.contains("continuing without it"));
}

#[test]
fn no_star_without_a_yes() {
    let mut calls = 0;
    let stdout = run_star_prompt(false, None, true, Some("no\n"), |_| {
        calls += 1;
        true
    });
    assert_eq!(calls, 1);
    assert!(stdout.ends_with("[clawhip] skipping GitHub star step\n"));
    assert!(run_star_prompt(false, None, true, None, |_| true).ends_with("[y/N]: "));
}

#[test]
fn words_that_say_yes() {
    assert!(is_truthy("on"));
    assert!(!is_truthy("On"));
    assert!(star_prompt_disabled(false, Some("TRUE")));
    assert!(!star_prompt_disabled(false, Some("0")));
    assert!(!star_prompt_disabled(false, None));
}

#[test]
fn directories_and_commands() {
    assert_eq!(config_dir(&Some("/home/me".into())), "/home/me/.clawhip");
    assert_eq!(config_dir(&None), "./.clawhip");
    assert_eq!(cargo_bin_dir(&None, &Some("/home/me".into())), "/home/me/.cargo/bin");
    assert_eq!(cargo_bin_dir(&Some("/opt/cargo".into()), &None), "/opt/cargo/bin");
    assert!(check_repo_root(true, true).is_ok());
    assert_eq!(
        check_repo_root(true, false).unwrap_err(),
        "run this command from the clawhip git clone root"
    );
    assert!(is_linked_build(Some("/repo/target/release/clawhip"), "/repo"));
    assert!(!is_linked_build(Some("/repo/targets/clawhip"), "/repo"));
    assert!(!is_linked_build(None, "/repo"));
    assert_eq!(update_build_args("/repo", true), vec!["build", "--release"]);
    assert_eq!(
        update_build_args("/repo", false),
        vec!["install", "--path", "/repo", "--force"]
    );
}
