use chitin::client::{
    build_request, daemon_not_running, interpret_response, resolve_session_id,
    time_id, ClientOutcome, DEFAULT_SESSION_ID,
};
use chitin::protocol::{
    internal_error, JsonRpcResponse, RawJson, ResponseAction,
};
use chitin::shell::{already_sourced, integration_block, source_line, PLUGIN_FILE};
use chitin::service::{
    detect_service_type, generate, generate_launchd, generate_openrc, generate_systemd,
    InitProbes, ServiceType,
};

fn probes(systemd_runtime_dir: bool, systemctl_command: bool, openrc_run: bool) -> InitProbes {
    InitProbes { systemd_runtime_dir, systemctl_command, openrc_run }
}

#[test]
fn macos_runs_launchd() {
    assert_eq!(detect_service_type("macos", &probes(false, false, false)), Some(ServiceType::Launchd));
    assert_eq!(detect_service_type("macos", &probes(true, true, true)), Some(ServiceType::Launchd));
}

#[test]
fn linux_prefers_systemd() {
    assert_eq!(detect_service_type("linux", &probes(true, false, false)), Some(ServiceType::Systemd));
    assert_eq!(detect_service_type("linux", &probes(false, true, false)), Some(ServiceType::Systemd));
    assert_eq!(detect_service_type("linux", &probes(true, true, true)), Some(ServiceType::Systemd));
    assert_eq!(detect_service_type("linux", &probes(false, false, true)), Some(ServiceType::Openrc));
    assert_eq!(detect_service_type("linux", &probes(false, false, false)), None);
}

#[test]
fn other_systems_have_no_service_manager() {
    for os in ["windows", "freebsd", "", "Linux", "macOS"] {
        assert_eq!(detect_service_type(os, &probes(true, true, true)), None);
    }
}

#[test]
fn launchd_file() {
    let binary_path = "/usr/local/bin/chitin";
    let expected = format!(
        r#"<?xml version="1.0" encoding="UTF-8"?>
<!DOCTYPE plist PUBLIC "-//Apple//DTD PLIST 1.0//EN" "http://www.apple.com/DTDs/PropertyList-1.0.dtd">
<plist version="1.0">
<dict>
    <key>Label</key>
    <string>com.user.chitin</string>
    <key>ProgramArguments</key>
    <array>
        <string>{binary_path}</string>
        <string>daemon</string>
    </array>
    <key>KeepAlive</key>
    <true/>
    <key>RunAtLoad</key>
    <true/>
    <key>StandardOutPath</key>
    <string>/tmp/chitin.log</string>
    <key>StandardErrorPath</key>
    <string>/tmp/chitin.error.log</string>
</dict>
</plist>
"#
    );
    assert_eq!(generate_launchd(binary_path), expected);
    assert_eq!(generate(ServiceType::Launchd, binary_path), expected);
}

#[test]
fn systemd_file() {
    let binary_path = "/home/u/.cargo/bin/chitin";
    let expected = format!(
        r#"[Unit]
Description=Chitin AI Shell Assistant Daemon
Documentation=https://github.com/chitin-ai/chitin

[Service]
ExecStart={binary_path} daemon
Restart=always
RestartSec=5
Type=simple

[Install]
WantedBy=default.target
"#
    );
    assert_eq!(generate_systemd(binary_path), expected);
    assert_eq!(generate(ServiceType::Systemd, binary_path), expected);
}

#[test]
fn openrc_file() {
    let binary_path = "/usr/bin/chitin";
    let expected = format!(
        r#"#!/sbin/openrc-run

name="chitin"
description="Chitin AI Shell Assistant Daemon"
command="{binary_path}"
command_args="daemon"
command_background=true
pidfile="/run/chitin.pid"

depend() {{
    need net
}}
"#
    );
    assert_eq!(generate_openrc(binary_path), expected);
    assert_eq!(generate(ServiceType::Openrc, binary_path), expected);
}

#[test]
fn session_key_precedence() {
    assert_eq!(resolve_session_id(Some("tty1".to_string()), Some("u".to_string())), "tty1");
    assert_eq!(resolve_session_id(Some("tty1".to_string()), None), "tty1");
    assert_eq!(resolve_session_id(None, Some("u".to_string())), "u");
    assert_eq!(resolve_session_id(None, None), "default");
    assert_eq!(DEFAULT_SESSION_ID, "default");
}

#[test]
fn time_id_is_the_decimal_number() {
    assert_eq!(time_id(0), "0");
    assert_eq!(time_id(1761609600123), "1761609600123");
    assert_eq!(time_id(u128::MAX), "340282366920938463463374607431768211455");
}

#[test]
fn client_request() {
    let request = build_request("1761609600123", "list files".to_string(), ".".to_string(), "u".to_string());
    assert_eq!(request.jsonrpc, "2.0");
    assert_eq!(request.method, "chitin.input");
    assert_eq!(request.id.as_str(), "\"1761609600123\"");
    assert_eq!(
        request.encode(),
        r#"{"jsonrpc":"2.0","id":"1761609600123","method":"chitin.input","params":{"prompt":"list files","pwd":".","session_id":"u"}}"#
    );
}

#[test]
fn missing_socket_message() {
    assert_eq!(
        daemon_not_running("/tmp/chitin.sock"),
        "Chitin daemon is not running (socket not found at /tmp/chitin.sock)"
    );
}

#[test]
fn empty_answer_is_a_failed_exchange() {
    let outcome = interpret_response(0, Err("EOF".to_string()));
    assert_eq!(outcome.err(), Some("Empty response from daemon".to_string()));
    let response = JsonRpcResponse::success(
        RawJson::null(),
        ResponseAction { action_type: "refill".to_string(), command: "ls".to_string() },
    );
    let outcome = interpret_response(0, Ok(response));
    assert_eq!(outcome.err(), Some("Empty response from daemon".to_string()));
}

#[test]
fn undecodable_answer_is_a_failed_exchange() {
    let outcome = interpret_response(3, Err("expected value".to_string()));
    assert_eq!(outcome.err(), Some("expected value".to_string()));
}

#[test]
fn answers_by_content() {
    let success = JsonRpcResponse::success(
        RawJson::string("1"),
        ResponseAction { action_type: "refill".to_string(), command: "ls -la".to_string() },
    );
    assert!(matches!(
        interpret_response(80, Ok(success)),
        Ok(ClientOutcome::Command(command)) if command == "ls -la"
    ));
    let failure = internal_error(RawJson::string("1"), "no route to model");
    assert!(matches!(
        interpret_response(80, Ok(failure)),
        Ok(ClientOutcome::Failure(message)) if message == "no route to model"
    ));
    let mut both = internal_error(RawJson::string("1"), "error wins");
    both.result = Some(ResponseAction { action_type: "refill".to_string(), command: "ls".to_string() });
    assert!(matches!(
        interpret_response(80, Ok(both)),
        Ok(ClientOutcome::Failure(message)) if message == "error wins"
    ));
    let neither = JsonRpcResponse {
        jsonrpc: "2.0".to_string(),
        id: RawJson::null(),
        result: None,
        error: None,
    };
    assert!(matches!(interpret_response(80, Ok(neither)), Ok(ClientOutcome::Nothing)));
}

#[test]
fn plugin_source_line() {
    assert_eq!(PLUGIN_FILE, "chitin.zsh");
    let path = "/home/u/.local/share/chitin/chitin.zsh";
    assert_eq!(source_line(path), "source \"/home/u/.local/share/chitin/chitin.zsh\"");
    assert_eq!(
        integration_block(path),
        "\n# Chitin Shell Integration\nsource \"/home/u/.local/share/chitin/chitin.zsh\"\n"
    );
    assert!(!already_sourced("", path));
    assert!(!already_sourced("export PATH=$PATH:~/bin\n", path));
    assert!(!already_sourced("source \"/home/u/.local/share/chitin/other.zsh\"\n", path));
    assert!(!already_sourced(path, path));
    let startup = format!("export A=1{}alias l=ls\n", integration_block(path));
    assert!(already_sourced(&startup, path));
    assert!(already_sourced("source \"/home/u/.local/share/chitin/chitin.zsh\"", path));
}
