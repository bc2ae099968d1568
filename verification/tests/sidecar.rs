use sidecar_launcher::event::LogAction;
use sidecar_launcher::event::SidecarEvent;
use sidecar_launcher::launch::on_spawn_result;
use sidecar_launcher::launch::yana_back_request;
use sidecar_launcher::launch::LaunchRequest;
use sidecar_launcher::launch::LaunchStep;
use sidecar_launcher::relay::relay_action;
use sidecar_launcher::relay::relay_all;

#[test]
fn request_names_yana_back_with_data_dir() {
    let request = yana_back_request("/home/user/.local/share/app".to_string());
    assert_eq!(request.name, "yana-back");
    assert_eq!(request.args, vec!["/home/user/.local/share/app".to_string()]);
}

#[test]
fn request_keeps_arguments_in_order() {
    let request = LaunchRequest::new(
        "tool".to_string(),
        vec!["b".to_string(), "a".to_string(), "c".to_string()],
    );
    assert_eq!(request.name, "tool");
    assert_eq!(
        request.args,
        vec!["b".to_string(), "a".to_string(), "c".to_string()]
    );
}

#[test]
fn successful_spawn_starts_one_relay() {
    assert_eq!(on_spawn_result(true), LaunchStep::StartRelay);
}

#[test]
fn failed_spawn_yields_one_diagnostic_line() {
    let step = on_spawn_result(false);
    assert_eq!(
        step,
        LaunchStep::Diagnostic("Failed to run Yana Back".to_string())
    );
}

#[test]
fn stdout_chunk_becomes_info_line() {
    let action = relay_action(&SidecarEvent::Stdout(b"ready".to_vec()));
    assert_eq!(action, LogAction::InfoLine("ready".to_string()));
}

#[test]
fn stderr_chunk_becomes_error_line() {
    let action = relay_action(&SidecarEvent::Stderr(b"warning: low disk".to_vec()));
    assert_eq!(action, LogAction::ErrorLine("warning: low disk".to_string()));
}

#[test]
fn channel_error_becomes_prefixed_error_line() {
    let action = relay_action(&SidecarEvent::ChannelError("broken pipe".to_string()));
    assert_eq!(action, LogAction::ErrorLine("Error: broken pipe".to_string()));
}

#[test]
fn other_events_are_ignored() {
    assert_eq!(relay_action(&SidecarEvent::Other), LogAction::Skip);
}

#[test]
fn malformed_bytes_are_replaced_not_fatal() {
    let events = vec![
        SidecarEvent::Stdout(vec![0xff, 0xfe, b'r']),
        SidecarEvent::Stdout(b"next".to_vec()),
    ];
    let log = relay_all(&events);
    assert_eq!(
        log.info,
        vec!["\u{fffd}\u{fffd}r".to_string(), "next".to_string()]
    );
    assert!(log.err.is_empty());
}

#[test]
fn stub_printing_ready_yields_one_info_line() {
    let events = vec![SidecarEvent::Stdout(b"ready".to_vec()), SidecarEvent::Other];
    let log = relay_all(&events);
    assert_eq!(log.info, vec!["ready".to_string()]);
    assert!(log.err.is_empty());
}

#[test]
fn per_stream_order_is_kept() {
    let events = vec![
        SidecarEvent::Stdout(b"one".to_vec()),
        SidecarEvent::Stderr(b"oops".to_vec()),
        SidecarEvent::Stdout(b"two".to_vec()),
        SidecarEvent::ChannelError("late".to_string()),
        SidecarEvent::Stdout(b"three".to_vec()),
    ];
    let log = relay_all(&events);
    assert_eq!(
        log.info,
        vec!["one".to_string(), "two".to_string(), "three".to_string()]
    );
    assert_eq!(
        log.err,
        vec!["oops".to_string(), "Error: late".to_string()]
    );
}

#[test]
fn channel_error_does_not_stop_the_relay() {
    let events = vec![
        SidecarEvent::ChannelError("hiccup".to_string()),
        SidecarEvent::Stdout(b"still here".to_vec()),
    ];
    let log = relay_all(&events);
    assert_eq!(log.info, vec!["still here".to_string()]);
    assert_eq!(log.err, vec!["Error: hiccup".to_string()]);
}

#[test]
fn exhausted_stream_writes_nothing() {
    let log = relay_all(&Vec::new());
    assert!(log.info.is_empty());
    assert!(log.err.is_empty());
}

#[test]
fn empty_chunk_yields_empty_line() {
    let log = relay_all(&vec![SidecarEvent::Stdout(Vec::new())]);
    assert_eq!(log.info, vec![String::new()]);
    assert!(log.err.is_empty());
}
