//! An abstract host: the registry as a map from key addresses to values, the
//! disk as a map from paths to what an export left there, and the effect of
//! each request of the workflow on the two. The model says what the workflow
//! expects of the registry tool; the laws below hold of the workflow's
//! commands on every host that behaves as the model does.

use vstd::prelude::*;
use crate::backup::{
    BackupRecordModel, backup_file_name_spec, backup_record_spec, lemma_key_address_injective,
    source_key_path_spec,
};
use crate::cleanup::{delete_command_spec, export_command_spec};
use crate::command::RegCommandModel;
use crate::constants::DATA_FOLDER_NAME;
use crate::failure::HostReply;
use crate::hive::{Hive, RegistryView};
use crate::paths::child_path_spec;
use crate::restore::{
    import_task_spec, inferred_view_spec, is_backup_file_name, names_64bit_view,
};
use crate::text::occurs_at;

verus! {

/// The address of a key: the path a command names and whether the command
/// is scoped to the 64-bit view.
pub struct KeyAddress {
    pub key_path: Seq<char>,
    pub is_64bit_view: bool,
}

/// What an export leaves in a file: the key it was taken from and the key's
/// named values.
pub struct Snapshot {
    pub key_path: Seq<char>,
    pub values: Map<Seq<char>, Seq<char>>,
}

/// The host, as far as the workflow touches it.
pub struct HostModel {
    /// The keys that exist, each with its named values.
    pub registry: Map<KeyAddress, Map<Seq<char>, Seq<char>>>,
    /// The files that exist; a file that was created and not yet written
    /// holds nothing.
    pub files: Map<Seq<char>, Option<Snapshot>>,
}

/// The key that a record's commands address.
pub open spec fn record_address(record: BackupRecordModel) -> KeyAddress {
    KeyAddress { key_path: record.source_key_path, is_64bit_view: record.view.targets_64bit() }
}

/// The startup key of one view of a hive.
pub open spec fn startup_key(hive: Hive, view: RegistryView) -> KeyAddress {
    KeyAddress { key_path: source_key_path_spec(hive, view), is_64bit_view: view.targets_64bit() }
}

impl HostModel {
    /// The host after a file was created, or emptied, at `path`.
    pub open spec fn create_file(self, path: Seq<char>) -> HostModel {
        HostModel { files: self.files.insert(path, None), ..self }
    }

    /// The host after an invocation of the registry tool, and the tool's
    /// answer. An export replaces the file with a snapshot of the key; a
    /// deletion removes the key; an import writes a file's snapshot to the
    /// key it was taken from, in the view the import is scoped to. Each
    /// fails, and changes nothing, where its key or file is missing.
    pub open spec fn run(self, command: RegCommandModel) -> (HostModel, HostReply) {
        match command {
            RegCommandModel::Export { key_path, file_path, is_64bit_view } => {
                let address = KeyAddress { key_path, is_64bit_view };
                if self.registry.dom().contains(address) {
                    (
                        HostModel {
                            files: self.files.insert(
                                file_path,
                                Some(Snapshot { key_path, values: self.registry[address] }),
                            ),
                            ..self
                        },
                        HostReply::Completed,
                    )
                } else {
                    (self, HostReply::Failed)
                }
            },
            RegCommandModel::Delete { key_path, is_64bit_view } => {
                let address = KeyAddress { key_path, is_64bit_view };
                if self.registry.dom().contains(address) {
                    (
                        HostModel { registry: self.registry.remove(address), ..self },
                        HostReply::Completed,
                    )
                } else {
                    (self, HostReply::Failed)
                }
            },
            RegCommandModel::Import { file_path, is_64bit_view } => {
                if self.files.dom().contains(file_path) && self.files[file_path] is Some {
                    let snapshot = self.files[file_path]->Some_0;
                    (
                        HostModel {
                            registry: self.registry.insert(
                                KeyAddress { key_path: snapshot.key_path, is_64bit_view },
                                snapshot.values,
                            ),
                            ..self
                        },
                        HostReply::Completed,
                    )
                } else {
                    (self, HostReply::Failed)
                }
            },
        }
    }
}

/// The name of every backup the exporter writes is one the restore agent
/// takes for a backup, and the agent imports it into the view it was
/// exported from: the 64-bit view exactly for the backups of that view.
pub proof fn lemma_backup_name_is_recognised(hive: Hive, view: RegistryView)
    ensures
        is_backup_file_name(backup_file_name_spec(hive, view)),
        names_64bit_view(backup_file_name_spec(hive, view)) == view.targets_64bit(),
        inferred_view_spec(backup_file_name_spec(hive, view)).targets_64bit()
            == view.targets_64bit(),
{
    reveal_strlit("hkey_local_machine");
    reveal_strlit("hkey_current_user");
    reveal_strlit("");
    reveal_strlit("x32");
    reveal_strlit("x64");
    reveal_strlit(".reg");
    reveal_strlit("64");
    let name = backup_file_name_spec(hive, view);
    let stem = hive.file_stem_spec().len() as int;
    if view == RegistryView::Wow64_64 {
        assert(name.subrange(stem + 1, stem + 3) =~= "64"@);
        assert(occurs_at(name, "64"@, stem + 1));
    } else {
        assert forall|at: int| !occurs_at(name, "64"@, at) by {
            if 0 <= at && at + 2 <= name.len() {
                assert(name.subrange(at, at + 2)[0] == name[at]);
            }
        }
    }
}

/// Round trip: on a host where the startup key of a view exists, exporting
/// it, deleting it, and importing the backup as the restore agent does when
/// it finds the file in the data folder, leaves the registry as it was.
/// In between, the key is gone.
pub proof fn lemma_round_trip(
    host: HostModel,
    hive: Hive,
    view: RegistryView,
    current_path: Seq<char>,
)
    requires
        host.registry.dom().contains(startup_key(hive, view)),
    ensures
        ({
            let record = backup_record_spec(hive, view, current_path);
            let exported = host.run(export_command_spec(record));
            let deleted = exported.0.run(delete_command_spec(record));
            let task = import_task_spec(
                child_path_spec(current_path, DATA_FOLDER_NAME@),
                backup_file_name_spec(hive, view),
            );
            let imported = deleted.0.run(task.command());
            &&& exported.1 == HostReply::Completed
            &&& deleted.1 == HostReply::Completed
            &&& imported.1 == HostReply::Completed
            &&& !deleted.0.registry.dom().contains(startup_key(hive, view))
            &&& imported.0.registry == host.registry
        }),
{
    lemma_backup_name_is_recognised(hive, view);
    let record = backup_record_spec(hive, view, current_path);
}

/// An export overwrites: what the backup file holds afterwards is the key as
/// it is at that moment, whatever the file held before, so of two exports
/// the second supersedes the first, and repeating an export changes nothing.
pub proof fn lemma_export_overwrites(host: HostModel, record: BackupRecordModel)
    requires
        host.registry.dom().contains(record_address(record)),
    ensures
        ({
            let once = host.run(export_command_spec(record)).0;
            let twice = once.run(export_command_spec(record)).0;
            &&& once.files[record.backup_file_path] == Some(
                Snapshot {
                    key_path: record.source_key_path,
                    values: host.registry[record_address(record)],
                },
            )
            &&& once.registry == host.registry
            &&& twice == once
        }),
{
    let once = host.run(export_command_spec(record)).0;
    let twice = once.run(export_command_spec(record)).0;
    assert(twice.files =~= once.files);
}

/// The content of a backup depends on the registry alone: two hosts with the
/// same registry leave the same snapshot in the file, whatever their disks
/// held before.
pub proof fn lemma_export_ignores_old_content(
    host_a: HostModel,
    host_b: HostModel,
    record: BackupRecordModel,
)
    requires
        host_a.registry == host_b.registry,
    ensures
        host_a.run(export_command_spec(record)).1 == host_b.run(export_command_spec(record)).1,
        host_a.run(export_command_spec(record)).1 == HostReply::Completed ==> host_a.run(
            export_command_spec(record),
        ).0.files[record.backup_file_path] == host_b.run(
            export_command_spec(record),
        ).0.files[record.backup_file_path],
{
}

/// Importing a backup again changes nothing: the agent leaves the files
/// where they are, and a second run of it puts back what the first put back.
pub proof fn lemma_import_is_idempotent(host: HostModel, file_path: Seq<char>, is_64bit_view: bool)
    ensures
        ({
            let command = RegCommandModel::Import { file_path, is_64bit_view };
            let once = host.run(command);
            let twice = once.0.run(command);
            &&& twice.1 == once.1
            &&& twice.0 == once.0
            &&& once.0.files == host.files
        }),
{
    let command = RegCommandModel::Import { file_path, is_64bit_view };
    let once = host.run(command);
    let twice = once.0.run(command);
    assert(twice.0.registry =~= once.0.registry);
}

/// View independence: deleting the startup key of one view of a hive leaves
/// the startup key of every other view, of that hive and of the other, as
/// it was.
pub proof fn lemma_delete_leaves_other_views(
    host: HostModel,
    hive: Hive,
    view: RegistryView,
    current_path: Seq<char>,
    other_hive: Hive,
    other_view: RegistryView,
)
    requires
        hive != other_hive || view != other_view,
    ensures
        ({
            let after = host.run(
                delete_command_spec(backup_record_spec(hive, view, current_path)),
            ).0;
            let other = startup_key(other_hive, other_view);
            &&& after.registry.dom().contains(other) == host.registry.dom().contains(other)
            &&& host.registry.dom().contains(other) ==> after.registry[other]
                == host.registry[other]
            &&& after.files == host.files
        }),
{
    lemma_key_address_injective(hive, view, other_hive, other_view);
}

} // verus!
