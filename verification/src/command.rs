//! Invocations of the registry tool: what is run to export, to delete and to
//! import a key, scoped to one view.

use vstd::prelude::*;
use crate::constants::{REGISTRY_TOOL, REGISTRY_TOOL_64_SWITCH};

verus! {

/// One invocation of the registry tool.
#[derive(Debug, PartialEq, Eq)]
pub enum RegCommand {
    /// Write the subtree of `key_path` to `file_path`, replacing the file.
    Export { key_path: String, file_path: String, is_64bit_view: bool },
    /// Remove the subtree of `key_path` without asking.
    Delete { key_path: String, is_64bit_view: bool },
    /// Apply the contents of `file_path` to the registry.
    Import { file_path: String, is_64bit_view: bool },
}

/// What a `RegCommand` stands for.
pub enum RegCommandModel {
    Export { key_path: Seq<char>, file_path: Seq<char>, is_64bit_view: bool },
    Delete { key_path: Seq<char>, is_64bit_view: bool },
    Import { file_path: Seq<char>, is_64bit_view: bool },
}

impl View for RegCommand {
    type V = RegCommandModel;

    open spec fn view(&self) -> RegCommandModel {
        match self {
            RegCommand::Export { key_path, file_path, is_64bit_view } => RegCommandModel::Export {
                key_path: key_path@,
                file_path: file_path@,
                is_64bit_view: *is_64bit_view,
            },
            RegCommand::Delete { key_path, is_64bit_view } => RegCommandModel::Delete {
                key_path: key_path@,
                is_64bit_view: *is_64bit_view,
            },
            RegCommand::Import { file_path, is_64bit_view } => RegCommandModel::Import {
                file_path: file_path@,
                is_64bit_view: *is_64bit_view,
            },
        }
    }
}

/// The switch that scopes an invocation to the 64-bit view, if it is to be
/// scoped so; without it the tool addresses the view of the calling process.
pub open spec fn view_switch(is_64bit_view: bool) -> Seq<Seq<char>> {
    if is_64bit_view {
        seq![REGISTRY_TOOL_64_SWITCH@]
    } else {
        seq![]
    }
}

impl RegCommandModel {
    /// The arguments handed to the registry tool, in order.
    pub open spec fn arguments(self) -> Seq<Seq<char>> {
        match self {
            RegCommandModel::Export { key_path, file_path, is_64bit_view } => seq![
                "export"@,
                key_path,
                file_path,
                "/y"@,
            ] + view_switch(is_64bit_view),
            RegCommandModel::Delete { key_path, is_64bit_view } => seq![
                "delete"@,
                key_path,
                "/f"@,
            ] + view_switch(is_64bit_view),
            RegCommandModel::Import { file_path, is_64bit_view } => seq!["import"@, file_path]
                + view_switch(is_64bit_view),
        }
    }

    /// Whether the invocation is scoped to the 64-bit view.
    pub open spec fn is_64bit_view(self) -> bool {
        match self {
            RegCommandModel::Export { is_64bit_view, .. } => is_64bit_view,
            RegCommandModel::Delete { is_64bit_view, .. } => is_64bit_view,
            RegCommandModel::Import { is_64bit_view, .. } => is_64bit_view,
        }
    }
}

impl RegCommand {
    /// The program to launch.
    pub fn program(&self) -> (r: &'static str)
        ensures
            r@ == REGISTRY_TOOL@,
    {
        REGISTRY_TOOL
    }

    /// Whether the invocation is scoped to the 64-bit view.
    pub fn is_64bit_view(&self) -> (b: bool)
        ensures
            b == self@.is_64bit_view(),
    {
        match self {
            RegCommand::Export { is_64bit_view, .. } => *is_64bit_view,
            RegCommand::Delete { is_64bit_view, .. } => *is_64bit_view,
            RegCommand::Import { is_64bit_view, .. } => *is_64bit_view,
        }
    }

    /// The arguments to hand to the program, in order.
    pub fn arguments(&self) -> (args: Vec<String>)
        ensures
            args.deep_view() == self@.arguments(),
    {
        let mut args: Vec<String> = Vec::new();
        match self {
            RegCommand::Export { key_path, file_path, .. } => {
                args.push(String::from_str("export"));
                args.push(key_path.clone());
                args.push(file_path.clone());
                args.push(String::from_str("/y"));
            },
            RegCommand::Delete { key_path, .. } => {
                args.push(String::from_str("delete"));
                args.push(key_path.clone());
                args.push(String::from_str("/f"));
            },
            RegCommand::Import { file_path, .. } => {
                args.push(String::from_str("import"));
                args.push(file_path.clone());
            },
        }
        if self.is_64bit_view() {
            args.push(String::from_str(REGISTRY_TOOL_64_SWITCH));
        }
        args
    }
}

/// The invocation that exports `key_path` to `file_path`. The file is
/// replaced without a prompt, so a second export of the same key supersedes
/// the first.
pub fn export_registry_key_to_file(file_path: &str, key_path: &str, is_64bit_view: bool) -> (command:
    RegCommand)
    ensures
        command@ == (RegCommandModel::Export {
            key_path: key_path@,
            file_path: file_path@,
            is_64bit_view,
        }),
{
    RegCommand::Export {
        key_path: String::from_str(key_path),
        file_path: String::from_str(file_path),
        is_64bit_view,
    }
}

/// The invocation that deletes `key_path`, scoped to the same view as its
/// export.
pub fn delete_registry_key(key_path: &str, is_64bit_view: bool) -> (command: RegCommand)
    ensures
        command@ == (RegCommandModel::Delete { key_path: key_path@, is_64bit_view }),
{
    RegCommand::Delete { key_path: String::from_str(key_path), is_64bit_view }
}

/// The invocation that imports the backup at `file_path`.
pub fn restore_registry(file_path: &str, is_64bit_view: bool) -> (command: RegCommand)
    ensures
        command@ == (RegCommandModel::Import { file_path: file_path@, is_64bit_view }),
{
    RegCommand::Import { file_path: String::from_str(file_path), is_64bit_view }
}

/// An invocation scoped to the 64-bit view carries the switch as its last
/// argument, and one that is not carries no argument beyond its own; an
/// export always carries the switch that replaces an existing file.
pub proof fn lemma_arguments_shape(command: RegCommandModel)
    ensures
        command.is_64bit_view() ==> command.arguments().last() == REGISTRY_TOOL_64_SWITCH@,
        command is Export ==> command.arguments()[3] == "/y"@,
        command is Export ==> command.arguments()[0] == "export"@,
        command is Delete ==> command.arguments()[0] == "delete"@,
        command is Import ==> command.arguments()[0] == "import"@,
        command.arguments().len() == (match command {
            RegCommandModel::Export { .. } => 4int,
            RegCommandModel::Delete { .. } => 3int,
            RegCommandModel::Import { .. } => 2int,
        }) + (if command.is_64bit_view() {
            1int
        } else {
            0int
        }),
{
}

} // verus!
