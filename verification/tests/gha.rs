use decay::gha::cli_commands::{plan, Commands, GhaAction};
use decay::gha::gha_commands::{state_line, state_variable, stop_exit_code, PID_STATE_KEY};

#[test]
fn saves_state_as_key_equals_value() {
    assert_eq!(state_line(PID_STATE_KEY, "4242"), "decay-pid=4242");
}

#[test]
fn reads_state_from_its_state_variable() {
    assert_eq!(state_variable(PID_STATE_KEY), "STATE_decay-pid");
}

#[test]
fn stop_exits_with_the_kill_status() {
    assert_eq!(stop_exit_code(true), 0);
    assert_eq!(stop_exit_code(false), 1);
}

#[test]
fn each_command_asks_for_its_action() {
    let start = plan(Commands::Start {
        binary_path: "./decay".to_owned(),
        port: "8585".to_owned(),
    });
    match start {
        GhaAction::StartServer {
            binary_path,
            port,
            pid_state_key,
        } => {
            assert_eq!(binary_path, "./decay");
            assert_eq!(port, "8585");
            assert_eq!(pid_state_key, "decay-pid");
        }
        other => panic!("unexpected action {other:?}"),
    }
    assert!(matches!(
        plan(Commands::StopWithPid { pid: "1".to_owned() }),
        GhaAction::StopProcess { pid } if pid == "1"
    ));
    assert!(matches!(
        plan(Commands::Stop),
        GhaAction::StopSavedProcess { pid_state_key } if pid_state_key == "decay-pid"
    ));
}
