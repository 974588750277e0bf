//! Fixed names of the workflow: registry locations, value names, file names
//! and the layout of the data folder.

use vstd::prelude::*;

verus! {

/// File that carries the locale and language preferences.
pub const XML_PATH: &'static str = "locale.xml";

/// Script that applies the preferences file.
pub const SCRIPT_PATH: &'static str = "locale.bat";

/// Vendor key, relative to the machine hive, that holds the reboot marker.
pub const REBOOT_REGISTRY_PATH: &'static str = "SOFTWARE\\AAAHelperCo\\AAAHelperApp";

/// Name of the reboot marker value.
pub const REBOOTED_KEY_NAME: &'static str = "rebooted";

/// Data of the reboot marker once the reboot has been issued.
pub const REBOOTED_KEY_VALUE: &'static str = "1";

/// Startup-programs key, relative to a hive, as 64-bit and native processes
/// see it.
pub const REGISTRY_STARTUP_PATH: &'static str = "SOFTWARE\\Microsoft\\Windows\\CurrentVersion\\Run";

/// Startup-programs key of 32-bit processes on a 64-bit host: the subtree the
/// system redirects them to.
pub const REGISTRY_STARTUP_PATH_WOW: &'static str =
    "SOFTWARE\\WOW6432Node\\Microsoft\\Windows\\CurrentVersion\\Run";

/// Run-once key, relative to the machine hive.
pub const REGISTRY_RUNONCE_PATH: &'static str =
    "SOFTWARE\\Microsoft\\Windows\\CurrentVersion\\RunOnce";

/// Run-once value that launches the setup continuation.
pub const SETUP_TASK_NAME: &'static str = "MoeinAssistant";

/// Run-once value that launches the restore agent.
pub const RESTORE_TASK_NAME: &'static str = "registry_restore";

/// Executable of the restore agent, inside the data folder.
pub const REGISTRY_RESTORE_EXECUTABLE: &'static str = "registry_restore.exe";

/// Folder, below the working directory, that holds the backups and the
/// executables launched after the reboot.
pub const DATA_FOLDER_NAME: &'static str = "data";

/// Packed form of the setup continuation, inside the data folder.
pub const SETUP_FILE_NAME: &'static str = "setup.bin";

/// Executable of the setup continuation, inside the data folder.
pub const SETUP_EXE_NAME: &'static str = "setup.exe";

/// Separator between the components of a path.
pub const PATH_SEPARATOR: &'static str = "\\";

/// Extension, with its dot, of a backup file.
pub const BACKUP_EXTENSION: &'static str = ".reg";

/// Token in a backup file's name that marks the 64-bit view.
pub const VIEW_64_TOKEN: &'static str = "64";

/// Helper program that exports, deletes and imports registry keys.
pub const REGISTRY_TOOL: &'static str = "reg";

/// Switch that scopes the helper program to the 64-bit view.
pub const REGISTRY_TOOL_64_SWITCH: &'static str = "/reg:64";

} // verus!
