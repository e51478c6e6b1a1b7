//! The systemd user unit that runs the daemon, and the report of what
//! installing it did. Writing the unit and asking systemd to enable it
//! happen outside the library.
use vstd::prelude::*;

verus! {

/// The file name of the systemd user unit.
pub const UNIT_FILE_NAME: &'static str = "shellagotchi.service";

/// The systemd user unit: a plain long-running service, restarted when it
/// fails, started with the user's default target. It has no sd-notify
/// integration and does not enable login lingering.
pub const UNIT_FILE_CONTENTS: &'static str = "[Unit]
Description=shellagotchi terminal pet daemon

[Service]
Type=simple
ExecStart=%h/.cargo/bin/shellagotchi daemon
Restart=on-failure

[Install]
WantedBy=default.target
";

/// What installing did. The unit's path is held as the text it is shown
/// as.
#[derive(Debug, PartialEq, Eq)]
pub enum InstallOutcome {
    /// The unit file was written, but no usable systemd user session was
    /// detected, so nothing was enabled or started.
    SystemdUnavailable { unit_path: String },
    /// The unit file was written, and reloading systemd and enabling and
    /// starting the unit both succeeded.
    Enabled { unit_path: String },
    /// The unit file was written and systemd is available, but reloading or
    /// enabling failed, for the reason in `detail`.
    EnableFailed { unit_path: String, detail: String },
}

/// The command that enables the unit by hand, indented as the report shows
/// it.
pub open spec fn manual_enable_line() -> Seq<char> {
    "  systemctl --user daemon-reload && systemctl --user enable --now shellagotchi.service\n"@
}

/// The report printed after installing: where the unit was written, then
/// what happened and what the user can do next, one line each.
pub open spec fn install_report_spec(outcome: InstallOutcome) -> Seq<char> {
    match outcome {
        InstallOutcome::SystemdUnavailable { unit_path } => "Wrote systemd unit file to "@
            + unit_path@ + "\n"@
            + "No systemd user session was detected, so the unit was not enabled automatically.\n"@
            + "Once a systemd user session is available, run:\n"@ + manual_enable_line()
            + "Or just start the daemon directly with:\n"@ + "  shellagotchi daemon\n"@,
        InstallOutcome::Enabled { unit_path } => "Wrote systemd unit file to "@ + unit_path@
            + "\n"@ + "Enabled and started shellagotchi.service.\n"@
            + "Note: the unit does NOT enable login lingering, so the daemon will stop when you fully log out. If you want it to keep running after logout, run:\n"@
            + "  loginctl enable-linger $USER\n"@,
        InstallOutcome::EnableFailed { unit_path, detail } => "Wrote systemd unit file to "@
            + unit_path@ + "\n"@ + "Failed to enable/start the unit: "@ + detail@ + "\n"@
            + "You can retry manually with:\n"@ + manual_enable_line(),
    }
}

/// Renders the report of `outcome`, every line ended by a line feed.
pub fn install_report(outcome: &InstallOutcome) -> (text: String)
    ensures
        text@ == install_report_spec(*outcome),
{
    let manual = "  systemctl --user daemon-reload && systemctl --user enable --now shellagotchi.service\n";
    let mut text = String::from_str("Wrote systemd unit file to ");
    match outcome {
        InstallOutcome::SystemdUnavailable { unit_path } => {
            text.append(unit_path.as_str());
            text.append("\n");
            text.append(
                "No systemd user session was detected, so the unit was not enabled automatically.\n",
            );
            text.append("Once a systemd user session is available, run:\n");
            text.append(manual);
            text.append("Or just start the daemon directly with:\n");
            text.append("  shellagotchi daemon\n");
        },
        InstallOutcome::Enabled { unit_path } => {
            text.append(unit_path.as_str());
            text.append("\n");
            text.append("Enabled and started shellagotchi.service.\n");
            text.append(
                "Note: the unit does NOT enable login lingering, so the daemon will stop when you fully log out. If you want it to keep running after logout, run:\n",
            );
            text.append("  loginctl enable-linger $USER\n");
        },
        InstallOutcome::EnableFailed { unit_path, detail } => {
            text.append(unit_path.as_str());
            text.append("\n");
            text.append("Failed to enable/start the unit: ");
            text.append(detail.as_str());
            text.append("\n");
            text.append("You can retry manually with:\n");
            text.append(manual);
        },
    }
    text
}

} // verus!
