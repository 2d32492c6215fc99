use special_return::command::{control_socket_path, event_socket_path, Delivery, MoveSilently};

fn order(workspace: &str, address: &str) -> MoveSilently {
    MoveSilently { workspace: workspace.to_string(), address: address.to_string() }
}

#[test]
fn command_names_workspace_and_address() {
    assert_eq!(
        order("3", "deadbeef").command(),
        "movetoworkspacesilent name:3,address:0xdeadbeef"
    );
    assert_eq!(order("", "").command(), "movetoworkspacesilent name:,address:0x");
    assert_eq!(
        order("my work", "55d2c0a0").command(),
        "movetoworkspacesilent name:my work,address:0x55d2c0a0"
    );
}

#[test]
fn socket_request_starts_with_dispatch() {
    assert_eq!(
        order("3", "deadbeef").socket_request(),
        "/dispatch movetoworkspacesilent name:3,address:0xdeadbeef"
    );
}

#[test]
fn utility_gets_three_arguments() {
    assert_eq!(
        order("my work", "deadbeef").utility_arguments(),
        vec![
            "dispatch".to_string(),
            "movetoworkspacesilent".to_string(),
            "name:my work,address:0xdeadbeef".to_string(),
        ]
    );
}

#[test]
fn only_socket_failures_are_fatal() {
    assert!(Delivery::ControlSocket.failure_is_fatal());
    assert!(!Delivery::ExternalCommand.failure_is_fatal());
}

#[test]
fn socket_paths_are_built_from_directory_and_signature() {
    assert_eq!(
        control_socket_path("/run/user/1000", "abc_123"),
        "/run/user/1000/hypr/abc_123/.socket.sock"
    );
    assert_eq!(
        event_socket_path("/run/user/1000", "abc_123"),
        "/run/user/1000/hypr/abc_123/.socket2.sock"
    );
    assert_eq!(control_socket_path("", ""), "/hypr//.socket.sock");
    assert_eq!(event_socket_path("", ""), "/hypr//.socket2.sock");
}
