use window_shell::dispatch::{dispatch_command, Command, Dispatch};
use window_shell::events::{Emission, IM_WINDOW, TARGET_FIELD};

fn command(target: &str, args: &str) -> Command {
    Command { target_name: target.to_string(), args: args.to_string() }
}

#[test]
fn empty_args_send_nothing_whatever_the_target() {
    assert_eq!(dispatch_command(&command("im", "")), Dispatch::Nothing);
    assert_eq!(dispatch_command(&command("dashboard", "")), Dispatch::Nothing);
    assert_eq!(dispatch_command(&command("", "")), Dispatch::Nothing);
}

#[test]
fn args_for_the_messaging_window_are_forwarded_unchanged() {
    let args = "  {\"symbol\": \"ÄBC\", \"qty\": 3}\n";
    assert_eq!(
        dispatch_command(&command("im", args)),
        Dispatch::Forward {
            emission: Emission {
                target: "im".to_string(),
                event: "target_field".to_string(),
                payload: Some(args.to_string()),
            },
        }
    );
    assert_eq!(IM_WINDOW, "im");
    assert_eq!(TARGET_FIELD, "target_field");
}

#[test]
fn args_of_one_space_are_not_empty() {
    assert_eq!(
        dispatch_command(&command("im", " ")),
        Dispatch::Forward {
            emission: Emission {
                target: "im".to_string(),
                event: "target_field".to_string(),
                payload: Some(" ".to_string()),
            },
        }
    );
}

#[test]
fn unrecognized_target_is_reported_not_failed() {
    assert_eq!(
        dispatch_command(&command("dashboard", "x")),
        Dispatch::Unrecognized { target: "dashboard".to_string() }
    );
    assert_eq!(
        dispatch_command(&command("IM", "x")),
        Dispatch::Unrecognized { target: "IM".to_string() }
    );
}

#[test]
fn notification_goes_to_the_messaging_window_without_payload() {
    assert_eq!(
        Emission::notify("cmd_request"),
        Emission { target: "im".to_string(), event: "cmd_request".to_string(), payload: None }
    );
    assert_eq!(
        Emission::carry("im", "target_field", "x"),
        Emission {
            target: "im".to_string(),
            event: "target_field".to_string(),
            payload: Some("x".to_string()),
        }
    );
}
