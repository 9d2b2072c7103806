//! What the service manager computes: the paths under the user's home where
//! the configuration, the launch descriptors and the logs live, the exact
//! content of the two descriptors and of the log-rotation script, and the
//! reading of a status query's outcome. Writing the files and talking to the
//! launch system stay outside the library.

use vstd::prelude::*;

verus! {

/// The configuration file's path under the given home directory.
pub open spec fn spec_config_path(home: Seq<char>) -> Seq<char> {
    home + "/Library/Application Support/language-handler/config.json"@
}

/// Builds the configuration file's path.
pub fn get_config_path(home: &str) -> (r: String)
    ensures
        r@ == spec_config_path(home@),
{
    let mut p = home.to_owned();
    p.append("/Library/Application Support/language-handler/config.json");
    p
}

/// The launch descriptor's path under the given home directory.
pub open spec fn spec_plist_path(home: Seq<char>) -> Seq<char> {
    home + "/Library/LaunchAgents/com.language-handler.plist"@
}

/// Builds the launch descriptor's path.
pub fn get_plist_path(home: &str) -> (r: String)
    ensures
        r@ == spec_plist_path(home@),
{
    let mut p = home.to_owned();
    p.append("/Library/LaunchAgents/com.language-handler.plist");
    p
}

/// The log directory under the given home directory.
pub open spec fn spec_log_directory(home: Seq<char>) -> Seq<char> {
    home + "/Library/Logs/language-handler"@
}

/// Builds the log directory's path.
pub fn get_log_directory(home: &str) -> (r: String)
    ensures
        r@ == spec_log_directory(home@),
{
    let mut p = home.to_owned();
    p.append("/Library/Logs/language-handler");
    p
}

/// The launch descriptor: it starts the binary at login, keeps it alive, and
/// sends its output to the two log files under the log directory.
pub open spec fn spec_plist_content(binary: Seq<char>, home: Seq<char>) -> Seq<char> {
    "<?xml version=\"1.0\" encoding=\"UTF-8\"?>\n<!DOCTYPE plist PUBLIC \"-//Apple//DTD PLIST 1.0//EN\" \"http://www.apple.com/DTDs/PropertyList-1.0.dtd\">\n<plist version=\"1.0\">\n<dict>\n    <key>Label</key>\n    <string>com.language-handler</string>\n    <key>ProgramArguments</key>\n    <array>\n        <string>"@
        + binary
        + "</string>\n    </array>\n    <key>RunAtLoad</key>\n    <true/>\n    <key>KeepAlive</key>\n    <true/>\n    <key>StandardOutPath</key>\n    <string>"@
        + spec_log_directory(home) + "/language-handler.log"@
        + "</string>\n    <key>StandardErrorPath</key>\n    <string>"@
        + spec_log_directory(home) + "/language-handler.error.log"@
        + "</string>\n    <key>ProcessType</key>\n    <string>Interactive</string>\n    <key>SoftResourceLimits</key>\n    <dict>\n        <key>NumberOfFiles</key>\n        <integer>256</integer>\n    </dict>\n</dict>\n</plist>"@
}

/// Builds the launch descriptor for the given binary path and home.
pub fn create_plist_content(binary_path: &str, home: &str) -> (r: String)
    ensures
        r@ == spec_plist_content(binary_path@, home@),
{
    let mut p =
        "<?xml version=\"1.0\" encoding=\"UTF-8\"?>\n<!DOCTYPE plist PUBLIC \"-//Apple//DTD PLIST 1.0//EN\" \"http://www.apple.com/DTDs/PropertyList-1.0.dtd\">\n<plist version=\"1.0\">\n<dict>\n    <key>Label</key>\n    <string>com.language-handler</string>\n    <key>ProgramArguments</key>\n    <array>\n        <string>".to_owned();
    p.append(binary_path);
    p.append(
        "</string>\n    </array>\n    <key>RunAtLoad</key>\n    <true/>\n    <key>KeepAlive</key>\n    <true/>\n    <key>StandardOutPath</key>\n    <string>",
    );
    let log_dir = get_log_directory(home);
    p.append(log_dir.as_str());
    p.append("/language-handler.log");
    p.append("</string>\n    <key>StandardErrorPath</key>\n    <string>");
    p.append(log_dir.as_str());
    p.append("/language-handler.error.log");
    p.append(
        "</string>\n    <key>ProcessType</key>\n    <string>Interactive</string>\n    <key>SoftResourceLimits</key>\n    <dict>\n        <key>NumberOfFiles</key>\n        <integer>256</integer>\n    </dict>\n</dict>\n</plist>",
    );
    proof {
        assert(p@ =~= spec_plist_content(binary_path@, home@));
    }
    p
}

/// The daily log-rotation script for the given log directory: it truncates
/// each log to its last 1000 lines when it exceeds 10MB, and deletes rotated
/// leftovers older than 7 days.
pub open spec fn spec_rotation_script(log_dir: Seq<char>) -> Seq<char> {
    "#!/bin/bash\n\nLOG_DIR=\""@ + log_dir
        + "\"\nMAX_SIZE=10485760 # 10MB in bytes\nMAX_DAYS=7\n\nrotate_log() {\n    local logfile=\"$1\"\n\n    if [[ -f \"$logfile\" ]]; then\n        local size=$(stat -f%z \"$logfile\" 2>/dev/null || echo 0)\n\n        if [[ $size -gt $MAX_SIZE ]]; then\n            echo \"$(date): Rotating $logfile (size: $size bytes)\"\n\n            tail -n 1000 \"$logfile\" > \"${logfile}.tmp\"\n            mv \"${logfile}.tmp\" \"$logfile\"\n\n            echo \"$(date): Log rotated, kept last 1000 lines\" >> \"$logfile\"\n        fi\n    fi\n}\n\nfind \"$LOG_DIR\" -name \"*.log.*\" -mtime +$MAX_DAYS -delete 2>/dev/null\n\nrotate_log \"$LOG_DIR/language-handler.log\"\nrotate_log \"$LOG_DIR/language-handler.error.log\"\n\nexit 0\n"@
}

/// Builds the log-rotation script.
pub fn create_rotation_script(log_dir: &str) -> (r: String)
    ensures
        r@ == spec_rotation_script(log_dir@),
{
    let mut p = "#!/bin/bash\n\nLOG_DIR=\"".to_owned();
    p.append(log_dir);
    p.append(
        "\"\nMAX_SIZE=10485760 # 10MB in bytes\nMAX_DAYS=7\n\nrotate_log() {\n    local logfile=\"$1\"\n\n    if [[ -f \"$logfile\" ]]; then\n        local size=$(stat -f%z \"$logfile\" 2>/dev/null || echo 0)\n\n        if [[ $size -gt $MAX_SIZE ]]; then\n            echo \"$(date): Rotating $logfile (size: $size bytes)\"\n\n            tail -n 1000 \"$logfile\" > \"${logfile}.tmp\"\n            mv \"${logfile}.tmp\" \"$logfile\"\n\n            echo \"$(date): Log rotated, kept last 1000 lines\" >> \"$logfile\"\n        fi\n    fi\n}\n\nfind \"$LOG_DIR\" -name \"*.log.*\" -mtime +$MAX_DAYS -delete 2>/dev/null\n\nrotate_log \"$LOG_DIR/language-handler.log\"\nrotate_log \"$LOG_DIR/language-handler.error.log\"\n\nexit 0\n",
    );
    proof {
        assert(p@ =~= spec_rotation_script(log_dir@));
    }
    p
}

/// The rotation task's launch descriptor: it runs the script daily at 2:00
/// and sends its output to rotation logs under the log directory.
pub open spec fn spec_rotation_plist_content(script: Seq<char>, log_dir: Seq<char>) -> Seq<char> {
    "<?xml version=\"1.0\" encoding=\"UTF-8\"?>\n<!DOCTYPE plist PUBLIC \"-//Apple//DTD PLIST 1.0//EN\" \"http://www.apple.com/DTDs/PropertyList-1.0.dtd\">\n<plist version=\"1.0\">\n<dict>\n    <key>Label</key>\n    <string>com.language-handler.logrotate</string>\n    <key>ProgramArguments</key>\n    <array>\n        <string>/bin/bash</string>\n        <string>"@
        + script
        + "</string>\n    </array>\n    <key>StartCalendarInterval</key>\n    <dict>\n        <key>Hour</key>\n        <integer>2</integer>\n        <key>Minute</key>\n        <integer>0</integer>\n    </dict>\n    <key>StandardOutPath</key>\n    <string>"@
        + log_dir + "/rotation.log</string>\n    <key>StandardErrorPath</key>\n    <string>"@
        + log_dir + "/rotation.error.log</string>\n</dict>\n</plist>"@
}

/// Builds the rotation task's launch descriptor.
pub fn create_rotation_plist_content(script_path: &str, log_dir: &str) -> (r: String)
    ensures
        r@ == spec_rotation_plist_content(script_path@, log_dir@),
{
    let mut p =
        "<?xml version=\"1.0\" encoding=\"UTF-8\"?>\n<!DOCTYPE plist PUBLIC \"-//Apple//DTD PLIST 1.0//EN\" \"http://www.apple.com/DTDs/PropertyList-1.0.dtd\">\n<plist version=\"1.0\">\n<dict>\n    <key>Label</key>\n    <string>com.language-handler.logrotate</string>\n    <key>ProgramArguments</key>\n    <array>\n        <string>/bin/bash</string>\n        <string>".to_owned();
    p.append(script_path);
    p.append(
        "</string>\n    </array>\n    <key>StartCalendarInterval</key>\n    <dict>\n        <key>Hour</key>\n        <integer>2</integer>\n        <key>Minute</key>\n        <integer>0</integer>\n    </dict>\n    <key>StandardOutPath</key>\n    <string>",
    );
    p.append(log_dir);
    p.append("/rotation.log</string>\n    <key>StandardErrorPath</key>\n    <string>");
    p.append(log_dir);
    p.append("/rotation.error.log</string>\n</dict>\n</plist>");
    proof {
        assert(p@ =~= spec_rotation_plist_content(script_path@, log_dir@));
    }
    p
}

/// What a status query found.
#[derive(Clone, Copy, PartialEq, Eq, Structural, Debug)]
pub enum ServiceStatus {
    /// No launch descriptor exists.
    NotInstalled,
    /// The descriptor exists and the launch system lists a live instance.
    InstalledRunning,
    /// The descriptor exists and the query succeeded with a blank answer.
    InstalledNotRunning,
    /// The descriptor exists but the query itself failed.
    InstalledNotLoaded,
}

/// The status that a query's raw outcome means.
pub open spec fn spec_service_status(
    plist_exists: bool,
    list_succeeded: bool,
    output_blank: bool,
) -> ServiceStatus {
    if !plist_exists {
        ServiceStatus::NotInstalled
    } else if !list_succeeded {
        ServiceStatus::InstalledNotLoaded
    } else if output_blank {
        ServiceStatus::InstalledNotRunning
    } else {
        ServiceStatus::InstalledRunning
    }
}

/// Reads a status query's outcome: whether the descriptor file exists,
/// whether the launch system answered the listing query at all, and whether
/// its answer was blank.
pub fn service_status(plist_exists: bool, list_succeeded: bool, output_blank: bool) -> (r:
    ServiceStatus)
    ensures
        r == spec_service_status(plist_exists, list_succeeded, output_blank),
{
    if !plist_exists {
        ServiceStatus::NotInstalled
    } else if !list_succeeded {
        ServiceStatus::InstalledNotLoaded
    } else if output_blank {
        ServiceStatus::InstalledNotRunning
    } else {
        ServiceStatus::InstalledRunning
    }
}

} // verus!
