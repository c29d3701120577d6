use instance_launcher::{
    begin_launch, conclude_spawn, finish_launch, plan_launch, select_strategy, Argument, Console,
    LaunchError, LaunchOutcome, Platform, Program, SpawnRequest, Step, CREATE_NEW_CONSOLE,
};

/// One whole launch, with the system's two answers given beforehand. The second
/// is used only where the launch comes to ask for a process.
fn launch(
    platform: Platform,
    lookup: Result<String, String>,
    spawned: Result<u32, String>,
) -> Result<String, String> {
    let outcome = match begin_launch(platform, lookup) {
        Step::Spawn(_) => finish_launch(spawned),
        Step::Finished(outcome) => outcome,
    };
    outcome.into_result()
}

fn answers() -> Vec<(Result<String, String>, Result<u32, String>)> {
    vec![
        (Ok("/opt/app/bin".to_string()), Ok(4821)),
        (Ok("/opt/app/bin".to_string()), Err("No such file or directory (os error 2)".to_string())),
        (Err("permission denied".to_string()), Ok(4821)),
        (Err("permission denied".to_string()), Err("Permission denied (os error 13)".to_string())),
    ]
}

fn platforms() -> Vec<Platform> {
    vec![Platform::Windows, Platform::MacOs, Platform::Linux, Platform::Unsupported]
}

#[test]
fn test_spawn_new_instance_not_implemented_during_test() {
    for platform in platforms() {
        for (lookup, spawned) in answers() {
            let result = launch(platform, lookup, spawned);
            match result {
                Ok(message) => {
                    assert!(message.contains("PID") || message.contains("process"));
                }
                Err(error) => {
                    assert!(!error.is_empty());
                    println!("Expected test error: {}", error);
                }
            }
        }
    }
}

#[test]
fn test_spawn_new_instance_function_signature() {
    let _begin: fn(Platform, Result<String, String>) -> Step<String> = begin_launch;
    let _finish: fn(Result<u32, String>) -> LaunchOutcome = finish_launch;
    let _result: fn(LaunchOutcome) -> Result<String, String> = LaunchOutcome::into_result;
    let _function_exists: fn(
        Platform,
        Result<String, String>,
        Result<u32, String>,
    ) -> Result<String, String> = launch;
    assert!(true);
}

#[test]
fn test_linux_platform_specific_behavior() {
    for (lookup, spawned) in answers() {
        let result = launch(Platform::Linux, lookup, spawned);
        match result {
            Ok(_) => {
                assert!(true);
            }
            Err(error) => {
                assert!(
                    error.contains("Failed to spawn")
                        || error.contains("Failed to get current executable")
                        || error.contains("No such file")
                );
            }
        }
    }
}

#[test]
fn test_windows_platform_specific_behavior() {
    let mut all = answers();
    all.push((
        Ok("C:\\app\\app.exe".to_string()),
        Err("The system cannot find the file specified. (os error 2)".to_string()),
    ));
    for (lookup, spawned) in all {
        let result = launch(Platform::Windows, lookup, spawned);
        match result {
            Ok(_) => {
                assert!(true);
            }
            Err(error) => {
                assert!(
                    error.contains("Failed to spawn")
                        || error.contains("Failed to get current executable")
                        || error.contains("system cannot find")
                );
            }
        }
    }
}

#[test]
fn test_macos_platform_specific_behavior() {
    for (lookup, spawned) in answers() {
        let result = launch(Platform::MacOs, lookup, spawned);
        match result {
            Ok(_) => {
                assert!(true);
            }
            Err(error) => {
                assert!(
                    error.contains("Failed to spawn")
                        || error.contains("Failed to get current executable")
                        || error.contains("No such file")
                        || error.contains("open:")
                );
            }
        }
    }
}

#[test]
fn test_spawn_function_returns_proper_error_format() {
    for platform in vec![Platform::Windows, Platform::MacOs, Platform::Linux] {
        for (lookup, spawned) in answers() {
            let result = launch(platform, lookup, spawned);
            match result {
                Ok(success_msg) => {
                    assert!(!success_msg.is_empty());
                    assert!(
                        success_msg.contains("PID")
                            || success_msg.contains("process")
                            || success_msg.contains("spawned")
                    );
                }
                Err(error_msg) => {
                    assert!(!error_msg.is_empty());
                    assert!(
                        error_msg.starts_with("Failed to")
                            || error_msg.contains("error")
                            || error_msg.contains("Error")
                    );
                }
            }
        }
    }
}

#[test]
fn linux_starts_the_executable_directly() {
    let step = begin_launch(Platform::Linux, Ok("/opt/app/bin".to_string()));
    assert_eq!(
        step,
        Step::Spawn(SpawnRequest {
            program: Program::Executable("/opt/app/bin".to_string()),
            arguments: vec![],
            console: Console::Inherited,
        })
    );
    let outcome = finish_launch(Ok(4821));
    assert_eq!(
        outcome,
        LaunchOutcome::Success {
            process_id: 4821,
            message: "New process spawned with PID: 4821".to_string(),
        }
    );
    assert_eq!(
        launch(Platform::Linux, Ok("/opt/app/bin".to_string()), Ok(4821)),
        Ok("New process spawned with PID: 4821".to_string())
    );
}

#[test]
fn macos_asks_the_open_utility_for_a_new_instance() {
    let path = "/Applications/App.app/Contents/MacOS/app".to_string();
    let step = begin_launch(Platform::MacOs, Ok(path.clone()));
    assert_eq!(
        step,
        Step::Spawn(SpawnRequest {
            program: Program::Utility("open".to_string()),
            arguments: vec![
                Argument::Text("-n".to_string()),
                Argument::Text("-a".to_string()),
                Argument::Path(path.clone()),
            ],
            console: Console::Inherited,
        })
    );
    assert_eq!(
        finish_launch(Ok(591)),
        LaunchOutcome::Success {
            process_id: 591,
            message: "New process spawned with PID: 591".to_string(),
        }
    );
    assert_eq!(
        launch(Platform::MacOs, Ok(path), Ok(591)),
        Ok("New process spawned with PID: 591".to_string())
    );
}

#[test]
fn windows_gives_the_process_a_console_of_its_own() {
    let step = begin_launch(Platform::Windows, Ok("C:\\app\\app.exe".to_string()));
    match step {
        Step::Spawn(request) => {
            assert_eq!(request.program, Program::Executable("C:\\app\\app.exe".to_string()));
            assert!(request.arguments.is_empty());
            assert_eq!(request.console, Console::New);
            assert_eq!(request.console.creation_flags(), 0x10);
        }
        Step::Finished(outcome) => panic!("no request was made: {:?}", outcome),
    }
    assert_eq!(CREATE_NEW_CONSOLE, 0x0000_0010);
    assert_eq!(Console::New.creation_flags(), CREATE_NEW_CONSOLE);
    assert_eq!(Console::Inherited.creation_flags(), 0);
}

#[test]
fn failed_lookup_is_reported_with_the_diagnostic() {
    for platform in platforms() {
        let step: Step<String> = begin_launch(platform, Err("permission denied".to_string()));
        assert_eq!(
            step,
            Step::Finished(LaunchOutcome::Failure {
                message: "Failed to get current executable path: permission denied".to_string(),
            })
        );
        assert_eq!(
            launch(platform, Err("permission denied".to_string()), Ok(7)),
            Err("Failed to get current executable path: permission denied".to_string())
        );
    }
}

#[test]
fn failed_lookup_with_an_empty_diagnostic_still_has_a_message() {
    let step: Step<String> = begin_launch(Platform::Linux, Err(String::new()));
    assert_eq!(
        step,
        Step::Finished(LaunchOutcome::Failure {
            message: "Failed to get current executable path: ".to_string(),
        })
    );
}

#[test]
fn unsupported_platform_asks_for_no_process() {
    let step = begin_launch(Platform::Unsupported, Ok("/opt/app/bin".to_string()));
    assert_eq!(
        step,
        Step::Finished(LaunchOutcome::Failure { message: "Unsupported platform".to_string() })
    );
    assert_eq!(select_strategy(Platform::Unsupported, "/opt/app/bin".to_string()), None);
    for spawned in vec![Ok(1), Ok(4821), Err("never asked".to_string())] {
        assert_eq!(
            launch(Platform::Unsupported, Ok("/opt/app/bin".to_string()), spawned),
            Err("Unsupported platform".to_string())
        );
    }
    assert!(!Platform::Unsupported.is_supported());
    assert!(Platform::Windows.is_supported());
    assert!(Platform::MacOs.is_supported());
    assert!(Platform::Linux.is_supported());
}

#[test]
fn refused_process_creation_is_reported_with_the_diagnostic() {
    let outcome = finish_launch(Err("No such file or directory (os error 2)".to_string()));
    assert_eq!(
        outcome,
        LaunchOutcome::Failure {
            message: "Failed to spawn new process: No such file or directory (os error 2)"
                .to_string(),
        }
    );
    assert!(!outcome.is_success());
    assert_eq!(outcome.process_id(), None);
    assert_eq!(
        outcome.into_result(),
        Err("Failed to spawn new process: No such file or directory (os error 2)".to_string())
    );
}

#[test]
fn plan_tells_the_kinds_of_failure_apart() {
    let refused: Result<SpawnRequest<String>, LaunchError> =
        plan_launch(Platform::MacOs, Err("permission denied".to_string()));
    assert_eq!(refused, Err(LaunchError::PathResolution("permission denied".to_string())));
    assert_eq!(
        plan_launch(Platform::Unsupported, Ok("/opt/app/bin".to_string())),
        Err(LaunchError::UnsupportedPlatform)
    );
    let both: Result<SpawnRequest<String>, LaunchError> =
        plan_launch(Platform::Unsupported, Err("gone".to_string()));
    assert_eq!(both, Err(LaunchError::PathResolution("gone".to_string())));
    assert_eq!(
        plan_launch(Platform::Linux, Ok("/opt/app/bin".to_string())),
        Ok(SpawnRequest {
            program: Program::Executable("/opt/app/bin".to_string()),
            arguments: vec![],
            console: Console::Inherited,
        })
    );
    assert_eq!(conclude_spawn(Ok(12)), Ok(12));
    assert_eq!(
        conclude_spawn(Err("out of memory".to_string())),
        Err(LaunchError::ProcessCreation("out of memory".to_string()))
    );
}

#[test]
fn each_kind_of_failure_has_its_message() {
    assert_eq!(
        LaunchError::PathResolution("permission denied".to_string()).message(),
        "Failed to get current executable path: permission denied"
    );
    assert_eq!(
        LaunchError::ProcessCreation("Permission denied (os error 13)".to_string()).message(),
        "Failed to spawn new process: Permission denied (os error 13)"
    );
    assert_eq!(LaunchError::UnsupportedPlatform.message(), "Unsupported platform");
    assert_eq!(
        LaunchOutcome::failed(&LaunchError::UnsupportedPlatform),
        LaunchOutcome::Failure { message: "Unsupported platform".to_string() }
    );
}

#[test]
fn success_carries_the_identifier_and_names_it() {
    let outcome = LaunchOutcome::spawned(4821);
    assert!(outcome.is_success());
    assert_eq!(outcome.process_id(), Some(4821));
    assert_eq!(outcome.message(), "New process spawned with PID: 4821");
    assert_eq!(outcome.into_result(), Ok("New process spawned with PID: 4821".to_string()));
    let own: u32 = 4820;
    assert_ne!(LaunchOutcome::spawned(own).message(), LaunchOutcome::spawned(4821).message());
}

#[test]
fn three_launches_in_a_row_give_three_outcomes() {
    let ids: Vec<u32> = vec![4821, 4822, 4830];
    let mut messages: Vec<String> = Vec::new();
    for id in &ids {
        let step = begin_launch(Platform::Linux, Ok("/opt/app/bin".to_string()));
        assert!(matches!(step, Step::Spawn(_)));
        let outcome = finish_launch(Ok(*id));
        assert_eq!(outcome.process_id(), Some(*id));
        messages.push(outcome.message().to_string());
    }
    assert_eq!(
        messages,
        vec![
            "New process spawned with PID: 4821".to_string(),
            "New process spawned with PID: 4822".to_string(),
            "New process spawned with PID: 4830".to_string(),
        ]
    );
    assert_ne!(messages[0], messages[1]);
    assert_ne!(messages[1], messages[2]);
    assert_ne!(messages[0], messages[2]);
}

#[test]
fn every_outcome_has_a_message() {
    for platform in platforms() {
        for (lookup, spawned) in answers() {
            let expect_success =
                lookup.is_ok() && spawned.is_ok() && platform != Platform::Unsupported;
            let result = launch(platform, lookup, spawned);
            assert_eq!(result.is_ok(), expect_success);
            match result {
                Ok(message) => assert_eq!(message, "New process spawned with PID: 4821"),
                Err(message) => assert!(!message.is_empty()),
            }
        }
    }
}

#[test]
fn a_path_of_another_type_is_carried_through() {
    let step = begin_launch(Platform::MacOs, Ok(vec![0x2fu8, 0xff, 0x61]));
    match step {
        Step::Spawn(request) => {
            assert_eq!(request.program, Program::Utility("open".to_string()));
            assert_eq!(request.arguments.len(), 3);
            assert_eq!(request.arguments[2], Argument::Path(vec![0x2fu8, 0xff, 0x61]));
        }
        Step::Finished(outcome) => panic!("no request was made: {:?}", outcome),
    }
}

#[test]
fn platforms_go_by_the_names_of_operating_systems() {
    assert_eq!(Platform::from_target_os("windows"), Platform::Windows);
    assert_eq!(Platform::from_target_os("macos"), Platform::MacOs);
    assert_eq!(Platform::from_target_os("linux"), Platform::Linux);
    for other in vec!["android", "ios", "freebsd", "", "Linux", "linux ", "win"] {
        assert_eq!(Platform::from_target_os(other), Platform::Unsupported);
    }
}
