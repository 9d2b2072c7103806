//! Tests of the service path and content builders and the status reading.

use language_handler::monitor::format_layout_info;
use language_handler::service::{
    create_plist_content, create_rotation_plist_content, create_rotation_script, get_config_path,
    get_log_directory, get_plist_path, service_status, ServiceStatus,
};

#[test]
fn paths_are_joined_under_home() {
    assert_eq!(
        get_config_path("/Users/me"),
        "/Users/me/Library/Application Support/language-handler/config.json"
    );
    assert_eq!(
        get_plist_path("/Users/me"),
        "/Users/me/Library/LaunchAgents/com.language-handler.plist"
    );
    assert_eq!(
        get_log_directory("/Users/me"),
        "/Users/me/Library/Logs/language-handler"
    );
}

#[test]
fn plist_content_embeds_binary_and_logs() {
    let content = create_plist_content("/usr/local/bin/language-handler", "/Users/me");
    let expected = format!(
        "<?xml version=\"1.0\" encoding=\"UTF-8\"?>\n<!DOCTYPE plist PUBLIC \"-//Apple//DTD PLIST 1.0//EN\" \"http://www.apple.com/DTDs/PropertyList-1.0.dtd\">\n<plist version=\"1.0\">\n<dict>\n    <key>Label</key>\n    <string>com.language-handler</string>\n    <key>ProgramArguments</key>\n    <array>\n        <string>{}</string>\n    </array>\n    <key>RunAtLoad</key>\n    <true/>\n    <key>KeepAlive</key>\n    <true/>\n    <key>StandardOutPath</key>\n    <string>{}</string>\n    <key>StandardErrorPath</key>\n    <string>{}</string>\n    <key>ProcessType</key>\n    <string>Interactive</string>\n    <key>SoftResourceLimits</key>\n    <dict>\n        <key>NumberOfFiles</key>\n        <integer>256</integer>\n    </dict>\n</dict>\n</plist>",
        "/usr/local/bin/language-handler",
        "/Users/me/Library/Logs/language-handler/language-handler.log",
        "/Users/me/Library/Logs/language-handler/language-handler.error.log",
    );
    assert_eq!(content, expected);
}

#[test]
fn rotation_script_embeds_log_directory() {
    let script = create_rotation_script("/Users/me/Library/Logs/language-handler");
    assert!(script.starts_with("#!/bin/bash\n"));
    assert!(script.contains("LOG_DIR=\"/Users/me/Library/Logs/language-handler\"\n"));
    assert!(script.contains("MAX_SIZE=10485760"));
    assert!(script.contains("MAX_DAYS=7"));
    assert!(script.contains("tail -n 1000"));
    assert!(script.contains("rotate_log \"$LOG_DIR/language-handler.log\""));
    assert!(script.contains("rotate_log \"$LOG_DIR/language-handler.error.log\""));
    assert!(script.ends_with("exit 0\n"));
}

#[test]
fn rotation_plist_embeds_script_and_logs() {
    let content = create_rotation_plist_content("/tmp/rotate_logs.sh", "/tmp/logs");
    assert!(content.contains("<string>com.language-handler.logrotate</string>"));
    assert!(content.contains("<string>/bin/bash</string>\n        <string>/tmp/rotate_logs.sh</string>"));
    assert!(content.contains("<key>Hour</key>\n        <integer>2</integer>"));
    assert!(content.contains("<string>/tmp/logs/rotation.log</string>"));
    assert!(content.contains("<string>/tmp/logs/rotation.error.log</string>"));
}

#[test]
fn status_reading_covers_all_outcomes() {
    assert_eq!(service_status(false, true, true), ServiceStatus::NotInstalled);
    assert_eq!(service_status(false, false, false), ServiceStatus::NotInstalled);
    assert_eq!(service_status(true, false, true), ServiceStatus::InstalledNotLoaded);
    assert_eq!(service_status(true, true, true), ServiceStatus::InstalledNotRunning);
    assert_eq!(service_status(true, true, false), ServiceStatus::InstalledRunning);
}

#[test]
fn layout_info_combines_name_and_identifier() {
    assert_eq!(
        format_layout_info(Some("com.apple.keylayout.US"), Some("U.S.")),
        "U.S. (com.apple.keylayout.US)"
    );
    assert_eq!(format_layout_info(Some("com.apple.keylayout.US"), None), "com.apple.keylayout.US");
    assert_eq!(format_layout_info(None, Some("U.S.")), "U.S.");
    assert_eq!(format_layout_info(None, None), "Unknown");
    assert_eq!(format_layout_info(Some(""), Some("U.S.")), "U.S.");
    assert_eq!(format_layout_info(Some(""), None), "Unknown");
}
