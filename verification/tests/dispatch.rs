use shim_dispatch::dispatch::{begin, dispatch, resume, Pending, Query, Stage, Step};
use shim_dispatch::executor::{
    Executor, InternalInstallCommand, Launch, PackageInstallCommand, ToolCommand,
};
use shim_dispatch::manager::PackageManager;
use shim_dispatch::platform::{ErrorKind, Platform, Provenance, Version};
use shim_dispatch::tool::ToolSpec;

type Reply = Result<Option<Platform>, String>;

fn args(words: &[&str]) -> Vec<Vec<u8>> {
    words.iter().map(|word| word.as_bytes().to_vec()).collect()
}

fn platform(major: u64, provenance: Provenance) -> Platform {
    Platform {
        node: Version { major, minor: 0, patch: 0 },
        npm: None,
        yarn: Some(Version { major: 1, minor: 22, patch: 19 }),
        provenance,
    }
}

fn tool_command(words: &[&str], platform: Option<Platform>) -> Executor {
    Executor::Tool(ToolCommand { exe: "npm".to_string(), args: args(words), platform })
}

fn failed(message: &str) -> Reply {
    Err(message.to_string())
}

#[test]
fn package_install_with_default_platform_is_redirected() {
    let words = ["install", "-g", "--force", "lodash@4"];
    let default = platform(18, Provenance::UserDefault);
    let current = platform(20, Provenance::ProjectPinned);
    let outcome: Result<Executor, String> =
        dispatch(PackageManager::Npm, args(&words), Ok(Some(default)), Ok(Some(current)));
    assert_eq!(
        outcome,
        Ok(Executor::PackageInstall(PackageInstallCommand {
            name: "lodash".to_string(),
            args: args(&words),
            platform: default,
            manager: PackageManager::Npm,
        }))
    );
}

#[test]
fn package_install_platform_is_narrowed_to_default() {
    let given = platform(18, Provenance::ProjectPinned);
    let outcome: Result<Executor, String> =
        dispatch(PackageManager::Npm, args(&["i", "-g", "cowsay"]), Ok(Some(given)), Ok(None));
    match outcome {
        Ok(Executor::PackageInstall(command)) => {
            assert_eq!(command.platform, platform(18, Provenance::UserDefault));
        }
        other => panic!("expected a package install, got {:?}", other),
    }
}

#[test]
fn package_install_without_default_platform_falls_through() {
    let words = ["install", "-g", "lodash"];
    let current = platform(20, Provenance::ProjectPinned);
    let outcome: Result<Executor, String> =
        dispatch(PackageManager::Npm, args(&words), Ok(None), Ok(Some(current)));
    assert_eq!(outcome, Ok(tool_command(&words, Some(current))));

    let outcome: Result<Executor, String> =
        dispatch(PackageManager::Npm, args(&words), Ok(None), Ok(None));
    assert_eq!(outcome, Ok(tool_command(&words, None)));
}

#[test]
fn core_tool_install_is_internal_whatever_the_platform() {
    let expected = Ok(Executor::InternalInstall(InternalInstallCommand {
        tool: ToolSpec::Npm(Some("9".to_string())),
    }));
    let some = platform(18, Provenance::UserDefault);
    let replies: [(Reply, Reply); 4] = [
        (Ok(Some(some)), Ok(Some(some))),
        (Ok(None), Ok(None)),
        (failed("default"), failed("current")),
        (Ok(None), failed("current")),
    ];
    for (default, current) in replies {
        assert_eq!(dispatch(PackageManager::Npm, args(&["i", "-g", "npm@9"]), default, current), expected);
    }
}

#[test]
fn node_and_yarn_installs_are_internal() {
    let outcome: Result<Executor, String> =
        dispatch(PackageManager::Npm, args(&["install", "--global", "node@18"]), Ok(None), Ok(None));
    assert_eq!(
        outcome,
        Ok(Executor::InternalInstall(InternalInstallCommand {
            tool: ToolSpec::Node(Some("18".to_string())),
        }))
    );
    let outcome: Result<Executor, String> =
        dispatch(PackageManager::Npm, args(&["add", "yarn", "-g"]), Ok(None), Ok(None));
    assert_eq!(
        outcome,
        Ok(Executor::InternalInstall(InternalInstallCommand { tool: ToolSpec::Yarn(None) }))
    );
}

#[test]
fn ordinary_command_is_passed_through_with_the_current_platform() {
    let words = ["run", "build", "--", "--watch"];
    let default = platform(18, Provenance::UserDefault);
    let current = platform(20, Provenance::ProjectPinned);
    let outcome: Result<Executor, String> =
        dispatch(PackageManager::Npm, args(&words), Ok(Some(default)), Ok(Some(current)));
    assert_eq!(outcome, Ok(tool_command(&words, Some(current))));
}

#[test]
fn pass_through_may_have_no_platform() {
    let outcome: Result<Executor, String> =
        dispatch(PackageManager::Npm, args(&["test"]), Ok(None), Ok(None));
    assert_eq!(outcome, Ok(tool_command(&["test"], None)));
}

#[test]
fn tool_command_keeps_the_arguments_byte_for_byte() {
    let list = vec![
        b"exec".to_vec(),
        b"\xff\xfe".to_vec(),
        Vec::new(),
        b"-g".to_vec(),
        b"a b\tc".to_vec(),
        b"-g".to_vec(),
    ];
    let outcome: Result<Executor, String> =
        dispatch(PackageManager::Npm, list.clone(), Ok(None), Ok(None));
    match outcome {
        Ok(Executor::Tool(command)) => {
            assert_eq!(command.args, list);
            assert_eq!(command.exe, "npm");
            assert_eq!(command.platform, None);
        }
        other => panic!("expected a tool command, got {:?}", other),
    }
}

#[test]
fn malformed_global_install_is_passed_through_untouched() {
    let words = ["install", "-g", ""];
    let default = platform(18, Provenance::UserDefault);
    let outcome: Result<Executor, String> =
        dispatch(PackageManager::Npm, args(&words), Ok(Some(default)), Ok(Some(default)));
    assert_eq!(outcome, Ok(tool_command(&words, Some(default))));
}

#[test]
fn default_platform_failure_ends_a_package_install() {
    let outcome = dispatch(
        PackageManager::Npm,
        args(&["install", "-g", "lodash"]),
        failed("cannot read default platform"),
        Ok(None),
    );
    assert_eq!(outcome, Err("cannot read default platform".to_string()));
}

#[test]
fn current_platform_failure_ends_a_pass_through() {
    let outcome =
        dispatch(PackageManager::Npm, args(&["run", "build"]), Ok(None), failed("unreadable pin"));
    assert_eq!(outcome, Err("unreadable pin".to_string()));

    let outcome = dispatch(
        PackageManager::Npm,
        args(&["install", "-g", "lodash"]),
        Ok(None),
        failed("unreadable pin"),
    );
    assert_eq!(outcome, Err("unreadable pin".to_string()));
}

#[test]
fn replies_that_are_not_needed_are_not_looked_at() {
    let words = ["run", "build"];
    let outcome = dispatch(PackageManager::Npm, args(&words), failed("default"), Ok(None));
    assert_eq!(outcome, Ok(tool_command(&words, None)));

    let default = platform(18, Provenance::UserDefault);
    let outcome = dispatch(
        PackageManager::Npm,
        args(&["install", "-g", "lodash"]),
        Ok(Some(default)),
        failed("current"),
    );
    assert!(matches!(outcome, Ok(Executor::PackageInstall(_))));
}

#[test]
fn begin_settles_a_core_tool_install_at_once() {
    let step: Step<String> = begin(PackageManager::Npm, args(&["i", "-g", "node"]));
    assert_eq!(
        step,
        Step::Run(Executor::InternalInstall(InternalInstallCommand { tool: ToolSpec::Node(None) }))
    );
}

#[test]
fn begin_asks_for_the_default_platform_before_a_package_install() {
    let words = ["i", "-g", "lodash@4"];
    let step: Step<String> = begin(PackageManager::Npm, args(&words));
    match step {
        Step::Ask(pending) => {
            assert_eq!(pending.query(), Query::DefaultPlatform);
            assert_eq!(pending.manager, PackageManager::Npm);
            assert_eq!(pending.args, args(&words));
            assert_eq!(pending.stage, Stage::PackageInstall { package: "lodash".to_string() });
        }
        other => panic!("expected a question, got {:?}", other),
    }
}

#[test]
fn begin_asks_for_the_current_platform_before_a_pass_through() {
    let step: Step<String> = begin(PackageManager::Npm, args(&["ls", "-g"]));
    match step {
        Step::Ask(pending) => {
            assert_eq!(pending.query(), Query::CurrentPlatform);
            assert_eq!(pending.args, args(&["ls", "-g"]));
            assert_eq!(pending.stage, Stage::PassThrough);
        }
        other => panic!("expected a question, got {:?}", other),
    }
}

#[test]
fn resume_without_default_platform_asks_for_the_current_one() {
    let pending = Pending {
        manager: PackageManager::Npm,
        args: args(&["i", "-g", "lodash"]),
        stage: Stage::PackageInstall { package: "lodash".to_string() },
    };
    let step: Step<String> = resume(pending, Ok(None));
    assert_eq!(
        step,
        Step::Ask(Pending {
            manager: PackageManager::Npm,
            args: args(&["i", "-g", "lodash"]),
            stage: Stage::PassThrough,
        })
    );
}

#[test]
fn resume_hands_on_the_error_of_the_session() {
    let pending = Pending {
        manager: PackageManager::Npm,
        args: args(&["test"]),
        stage: Stage::PassThrough,
    };
    assert_eq!(resume(pending, failed("unreadable")), Step::Fail("unreadable".to_string()));
}

#[test]
fn steps_end_where_dispatch_ends() {
    let default = platform(18, Provenance::UserDefault);
    let current = platform(20, Provenance::ProjectPinned);
    let lists = [
        args(&["install", "-g", "lodash"]),
        args(&["install", "-g", "npm"]),
        args(&["run", "build"]),
        args(&["install", "-g", ""]),
    ];
    let replies: [(Reply, Reply); 5] = [
        (Ok(Some(default)), Ok(Some(current))),
        (Ok(None), Ok(Some(current))),
        (Ok(None), Ok(None)),
        (failed("default"), Ok(None)),
        (Ok(None), failed("current")),
    ];
    for list in lists.iter() {
        for (default, current) in replies.iter() {
            let mut step: Step<String> = begin(PackageManager::Npm, list.clone());
            let mut asked = 0;
            let by_steps = loop {
                match step {
                    Step::Run(executor) => break Ok(executor),
                    Step::Fail(error) => break Err(error),
                    Step::Ask(pending) => {
                        asked += 1;
                        let reply = match pending.query() {
                            Query::DefaultPlatform => default.clone(),
                            Query::CurrentPlatform => current.clone(),
                        };
                        step = resume(pending, reply);
                    }
                }
            };
            assert!(asked <= 2);
            assert_eq!(
                by_steps,
                dispatch(PackageManager::Npm, list.clone(), default.clone(), current.clone())
            );
        }
    }
}

#[test]
fn launch_pairs_the_command_with_its_context() {
    let active = platform(20, Provenance::ProjectPinned);
    let command = ToolCommand {
        exe: "npm".to_string(),
        args: args(&["run", "build"]),
        platform: Some(active),
    };
    assert_eq!(
        command.launch::<String>(Ok(b"/image/bin:/usr/bin".to_vec())),
        Ok(Launch {
            exe: "npm".to_string(),
            args: args(&["run", "build"]),
            search_path: b"/image/bin:/usr/bin".to_vec(),
            on_failure: ErrorKind::BinaryExecError,
        })
    );
}

#[test]
fn launch_without_platform_reports_no_platform() {
    let command = ToolCommand { exe: "npm".to_string(), args: args(&["test"]), platform: None };
    assert_eq!(
        command.launch::<String>(Ok(b"/usr/bin".to_vec())),
        Ok(Launch {
            exe: "npm".to_string(),
            args: args(&["test"]),
            search_path: b"/usr/bin".to_vec(),
            on_failure: ErrorKind::NoPlatform,
        })
    );
}

#[test]
fn launch_hands_on_a_path_failure() {
    let command = ToolCommand { exe: "npm".to_string(), args: args(&["test"]), platform: None };
    assert_eq!(command.launch(Err("no PATH".to_string())), Err("no PATH".to_string()));
}
