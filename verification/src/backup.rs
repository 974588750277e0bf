//! Backup records: which key of which view is saved to which file, and the
//! naming scheme that lets the file be found again after the reboot.

use vstd::prelude::*;
use crate::constants::PATH_SEPARATOR;
use crate::hive::{Hive, RegistryView};
use crate::paths::{data_path, data_path_spec};
use crate::text::join_text;
use crate::views::{ViewTarget, file_suffix_spec, key_path_suffix_spec, host_views};

verus! {

/// One startup key to save and clean: the hive and view that scope it, the
/// key as the registry tool names it, and the file that receives its export.
#[derive(Debug, PartialEq, Eq)]
pub struct BackupRecord {
    pub hive: Hive,
    pub view: RegistryView,
    pub source_key_path: String,
    pub backup_file_path: String,
}

/// What a `BackupRecord` stands for.
pub struct BackupRecordModel {
    pub hive: Hive,
    pub view: RegistryView,
    pub source_key_path: Seq<char>,
    pub backup_file_path: Seq<char>,
}

impl View for BackupRecord {
    type V = BackupRecordModel;

    open spec fn view(&self) -> BackupRecordModel {
        BackupRecordModel {
            hive: self.hive,
            view: self.view,
            source_key_path: self.source_key_path@,
            backup_file_path: self.backup_file_path@,
        }
    }
}

/// What a list of records stands for.
pub open spec fn records_model(records: Seq<BackupRecord>) -> Seq<BackupRecordModel> {
    records.map_values(|r: BackupRecord| r@)
}

/// The name of the backup file of a hive, given the end of the name.
pub open spec fn backup_file_name_with(hive: Hive, file_suffix: Seq<char>) -> Seq<char> {
    hive.file_stem_spec() + file_suffix
}

/// The name of the backup file of one view of a hive: the hive's name in
/// lower case, the view's marker, the extension.
pub open spec fn backup_file_name_spec(hive: Hive, view: RegistryView) -> Seq<char> {
    backup_file_name_with(hive, file_suffix_spec(view))
}

/// The key of a hive at `key_path_suffix`, as the registry tool names it.
pub open spec fn full_key_path_spec(hive: Hive, key_path_suffix: Seq<char>) -> Seq<char> {
    hive.name_spec() + seq!['\\'] + key_path_suffix
}

/// The startup key of one view of a hive, as the registry tool names it.
pub open spec fn source_key_path_spec(hive: Hive, view: RegistryView) -> Seq<char> {
    full_key_path_spec(hive, key_path_suffix_spec(view))
}

/// The record of one view of a hive, for a run started in `current_path`.
pub open spec fn backup_record_spec(
    hive: Hive,
    view: RegistryView,
    current_path: Seq<char>,
) -> BackupRecordModel {
    BackupRecordModel {
        hive,
        view,
        source_key_path: source_key_path_spec(hive, view),
        backup_file_path: data_path_spec(current_path, backup_file_name_spec(hive, view)),
    }
}

/// The records of one hive, in the order of the host's views.
pub open spec fn hive_records_spec(hive: Hive, is_64bit: bool, current_path: Seq<char>) -> Seq<
    BackupRecordModel,
> {
    host_views(is_64bit).map_values(
        |view: RegistryView| backup_record_spec(hive, view, current_path),
    )
}

/// The path of the backup file of a hive inside the data folder below
/// `current_path`, for a target's file suffix. The name depends on the hive
/// and the suffix alone, so the same view is always saved to the same file.
pub fn create_backup_files(current_path: &str, hive: Hive, file_suffix: &str) -> (path: String)
    ensures
        path@ == data_path_spec(current_path@, backup_file_name_with(hive, file_suffix@)),
{
    let name = join_text(hive.file_stem(), file_suffix);
    data_path(current_path, name.as_str())
}

/// The key of a hive at `key_path_suffix`, as the registry tool names it.
pub fn full_key_path(hive: Hive, key_path_suffix: &str) -> (path: String)
    ensures
        path@ == full_key_path_spec(hive, key_path_suffix@),
{
    proof {
        reveal_strlit("\\");
    }
    let mut path = join_text(hive.name(), PATH_SEPARATOR);
    path.append(key_path_suffix);
    path
}

/// The record of one target of a hive, for a run started in `current_path`.
pub fn backup_record(hive: Hive, target: &ViewTarget, current_path: &str) -> (record: BackupRecord)
    ensures
        record@ == (BackupRecordModel {
            hive,
            view: target.view,
            source_key_path: full_key_path_spec(hive, target.key_path_suffix@),
            backup_file_path: data_path_spec(
                current_path@,
                backup_file_name_with(hive, target.file_suffix@),
            ),
        }),
{
    BackupRecord {
        hive,
        view: target.view,
        source_key_path: full_key_path(hive, target.key_path_suffix),
        backup_file_path: create_backup_files(current_path, hive, target.file_suffix),
    }
}

/// Different views of different hives are saved under different file names:
/// no export overwrites the backup of another pair.
pub proof fn lemma_backup_file_name_injective(
    hive_a: Hive,
    view_a: RegistryView,
    hive_b: Hive,
    view_b: RegistryView,
)
    ensures
        backup_file_name_spec(hive_a, view_a) == backup_file_name_spec(hive_b, view_b) ==> hive_a
            == hive_b && view_a == view_b,
{
    reveal_strlit("hkey_local_machine");
    reveal_strlit("hkey_current_user");
    reveal_strlit("");
    reveal_strlit("x32");
    reveal_strlit("x64");
    reveal_strlit(".reg");
    let a = backup_file_name_spec(hive_a, view_a);
    let b = backup_file_name_spec(hive_b, view_b);
    if a == b {
        assert(a[5] == b[5]);
        let n = hive_a.file_stem_spec().len() as int;
        if view_a != view_b {
            assert(a[n + 1] == b[n + 1]);
        }
    }
}

/// Different views are addressed by different commands: either the key path
/// or the 64-bit switch tells them apart, so a command for one view never
/// reaches the key of another.
pub proof fn lemma_key_address_injective(
    hive_a: Hive,
    view_a: RegistryView,
    hive_b: Hive,
    view_b: RegistryView,
)
    ensures
        source_key_path_spec(hive_a, view_a) == source_key_path_spec(hive_b, view_b)
            && view_a.targets_64bit() == view_b.targets_64bit() ==> hive_a == hive_b && view_a
            == view_b,
{
    reveal_strlit("HKEY_LOCAL_MACHINE");
    reveal_strlit("HKEY_CURRENT_USER");
    reveal_strlit("SOFTWARE\\Microsoft\\Windows\\CurrentVersion\\Run");
    reveal_strlit("SOFTWARE\\WOW6432Node\\Microsoft\\Windows\\CurrentVersion\\Run");
    let a = source_key_path_spec(hive_a, view_a);
    let b = source_key_path_spec(hive_b, view_b);
    if a == b && view_a.targets_64bit() == view_b.targets_64bit() {
        assert(a.len() == b.len());
    }
}

} // verus!
