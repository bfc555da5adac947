//! Service-manager integration: which init system a machine runs, and the
//! service file each of them wants for the daemon.
use crate::text::same;
use vstd::prelude::*;

verus! {

/// A service manager the daemon can be registered with.
#[derive(Clone, Copy, Debug, PartialEq, Eq)]
pub enum ServiceType {
    /// macOS launchd agent
    Launchd,
    /// Linux systemd user service
    Systemd,
    /// Linux OpenRC init script
    Openrc,
}

/// What was found on the machine about its init system.
pub struct InitProbes {
    /// `/run/systemd/system` exists.
    pub systemd_runtime_dir: bool,
    /// A `systemctl` command is on the path.
    pub systemctl_command: bool,
    /// `/sbin/openrc-run` exists.
    pub openrc_run: bool,
}

/// The service manager of a machine: launchd on macOS; on Linux systemd
/// where there is any sign of it, else OpenRC where `openrc-run` exists;
/// none elsewhere.
pub open spec fn detected(os: Seq<char>, probes: InitProbes) -> Option<ServiceType> {
    if os == "macos"@ {
        Some(ServiceType::Launchd)
    } else if os == "linux"@ {
        if probes.systemd_runtime_dir || probes.systemctl_command {
            Some(ServiceType::Systemd)
        } else if probes.openrc_run {
            Some(ServiceType::Openrc)
        } else {
            None
        }
    } else {
        None
    }
}

/// Tells the service manager of the operating system `os` from what was
/// found on the machine.
pub fn detect_service_type(os: &str, probes: &InitProbes) -> (found: Option<ServiceType>)
    ensures
        found == detected(os@, *probes),
{
    if same(os, "macos") {
        return Some(ServiceType::Launchd);
    }
    if same(os, "linux") {
        if probes.systemd_runtime_dir || probes.systemctl_command {
            return Some(ServiceType::Systemd);
        }
        if probes.openrc_run {
            return Some(ServiceType::Openrc);
        }
    }
    None
}

/// The launchd property list up to the path of the binary.
pub const LAUNCHD_HEAD: &'static str = r#"<?xml version="1.0" encoding="UTF-8"?>
<!DOCTYPE plist PUBLIC "-//Apple//DTD PLIST 1.0//EN" "http://www.apple.com/DTDs/PropertyList-1.0.dtd">
<plist version="1.0">
<dict>
    <key>Label</key>
    <string>com.user.chitin</string>
    <key>ProgramArguments</key>
    <array>
        <string>"#;

/// The launchd property list after the path of the binary.
pub const LAUNCHD_TAIL: &'static str = r#"</string>
        <string>daemon</string>
    </array>
    <key>KeepAlive</key>
    <true/>
    <key>RunAtLoad</key>
    <true/>
    <key>StandardOutPath</key>
    <string>/tmp/chitin.log</string>
    <key>StandardErrorPath</key>
    <string>/tmp/chitin.error.log</string>
</dict>
</plist>
"#;

/// The systemd unit up to the path of the binary.
pub const SYSTEMD_HEAD: &'static str = r#"[Unit]
Description=Chitin AI Shell Assistant Daemon
Documentation=https://github.com/chitin-ai/chitin

[Service]
ExecStart="#;

/// The systemd unit after the path of the binary.
pub const SYSTEMD_TAIL: &'static str = r#" daemon
Restart=always
RestartSec=5
Type=simple

[Install]
WantedBy=default.target
"#;

/// The OpenRC script up to the path of the binary.
pub const OPENRC_HEAD: &'static str = r#"#!/sbin/openrc-run

name="chitin"
description="Chitin AI Shell Assistant Daemon"
command=""#;

/// The OpenRC script after the path of the binary.
pub const OPENRC_TAIL: &'static str = r#""
command_args="daemon"
command_background=true
pidfile="/run/chitin.pid"

depend() {
    need net
}
"#;

/// The service file of `service_type` for the binary at `binary_path`.
pub open spec fn service_file(service_type: ServiceType, binary_path: Seq<char>) -> Seq<char> {
    match service_type {
        ServiceType::Launchd => LAUNCHD_HEAD@ + binary_path + LAUNCHD_TAIL@,
        ServiceType::Systemd => SYSTEMD_HEAD@ + binary_path + SYSTEMD_TAIL@,
        ServiceType::Openrc => OPENRC_HEAD@ + binary_path + OPENRC_TAIL@,
    }
}

/// The launchd property list that runs `binary_path daemon`.
pub fn generate_launchd(binary_path: &str) -> (file: String)
    ensures
        file@ == service_file(ServiceType::Launchd, binary_path@),
{
    let mut file = String::from_str(LAUNCHD_HEAD);
    file.append(binary_path);
    file.append(LAUNCHD_TAIL);
    file
}

/// The systemd user unit that runs `binary_path daemon`.
pub fn generate_systemd(binary_path: &str) -> (file: String)
    ensures
        file@ == service_file(ServiceType::Systemd, binary_path@),
{
    let mut file = String::from_str(SYSTEMD_HEAD);
    file.append(binary_path);
    file.append(SYSTEMD_TAIL);
    file
}

/// The OpenRC init script that runs `binary_path daemon`.
pub fn generate_openrc(binary_path: &str) -> (file: String)
    ensures
        file@ == service_file(ServiceType::Openrc, binary_path@),
{
    let mut file = String::from_str(OPENRC_HEAD);
    file.append(binary_path);
    file.append(OPENRC_TAIL);
    file
}

/// The service file of `service_type` for the binary at `binary_path`.
pub fn generate(service_type: ServiceType, binary_path: &str) -> (file: String)
    ensures
        file@ == service_file(service_type, binary_path@),
{
    match service_type {
        ServiceType::Launchd => generate_launchd(binary_path),
        ServiceType::Systemd => generate_systemd(binary_path),
        ServiceType::Openrc => generate_openrc(binary_path),
    }
}

} // verus!
