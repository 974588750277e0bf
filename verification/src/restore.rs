//! The restore agent: which of the files found in its working directory are
//! backups, into which view each is imported, and how an import that did not
//! succeed is recorded. The agent runs in a process of its own after the
//! reboot and knows nothing but the names of the files it finds. It imports
//! whatever has a backup's name, without asking where the file came from,
//! and leaves the files in place: run again, it imports the same content
//! again.

use vstd::prelude::*;
use crate::command::{RegCommand, RegCommandModel, restore_registry};
use crate::constants::{BACKUP_EXTENSION, VIEW_64_TOKEN};
use crate::failure::{Failure, FailureModel, HostReply, command_cause, command_cause_spec};
use crate::hive::RegistryView;
use crate::paths::{child_path, child_path_spec};
use crate::text::{contains, ends_with, occurs_in};

verus! {

/// One entry of the working directory.
#[derive(Debug, PartialEq, Eq)]
pub struct DirectoryEntry {
    /// The entry's name, without the directory.
    pub name: String,
    /// Whether the entry is a file.
    pub is_file: bool,
}

/// What a `DirectoryEntry` stands for.
pub struct DirectoryEntryModel {
    pub name: Seq<char>,
    pub is_file: bool,
}

impl View for DirectoryEntry {
    type V = DirectoryEntryModel;

    open spec fn view(&self) -> DirectoryEntryModel {
        DirectoryEntryModel { name: self.name@, is_file: self.is_file }
    }
}

/// What a list of entries stands for.
pub open spec fn entries_model(entries: Seq<DirectoryEntry>) -> Seq<DirectoryEntryModel> {
    entries.map_values(|e: DirectoryEntry| e@)
}

/// One backup file to import.
#[derive(Debug, PartialEq, Eq)]
pub struct ImportTask {
    /// The file's name, as found in the directory.
    pub file_name: String,
    /// The file's path, as handed to the registry tool.
    pub file_path: String,
    /// The view the import is scoped to.
    pub view: RegistryView,
}

/// What an `ImportTask` stands for.
pub struct ImportTaskModel {
    pub file_name: Seq<char>,
    pub file_path: Seq<char>,
    pub view: RegistryView,
}

impl ImportTaskModel {
    /// The invocation that imports the file, scoped to the task's view.
    pub open spec fn command(self) -> RegCommandModel {
        RegCommandModel::Import {
            file_path: self.file_path,
            is_64bit_view: self.view.targets_64bit(),
        }
    }
}

impl View for ImportTask {
    type V = ImportTaskModel;

    open spec fn view(&self) -> ImportTaskModel {
        ImportTaskModel { file_name: self.file_name@, file_path: self.file_path@, view: self.view }
    }
}

/// What a list of tasks stands for.
pub open spec fn tasks_model(tasks: Seq<ImportTask>) -> Seq<ImportTaskModel> {
    tasks.map_values(|t: ImportTask| t@)
}

/// Whether a file name follows the backup naming scheme: it ends with the
/// backup extension and has something before it.
pub open spec fn is_backup_file_name(name: Seq<char>) -> bool {
    name.len() > BACKUP_EXTENSION@.len() && BACKUP_EXTENSION@.is_suffix_of(name)
}

/// Whether a backup with this name is imported into the 64-bit view: its
/// name holds the token of that view.
pub open spec fn names_64bit_view(name: Seq<char>) -> bool {
    occurs_in(name, VIEW_64_TOKEN@)
}

/// The view a backup with this name is imported into: the 64-bit view where
/// the name marks it, the view of the agent itself otherwise.
pub open spec fn inferred_view_spec(name: Seq<char>) -> RegistryView {
    if names_64bit_view(name) {
        RegistryView::Wow64_64
    } else {
        RegistryView::Native
    }
}

/// The import of the backup file `name` found in `directory`.
pub open spec fn import_task_spec(directory: Seq<char>, name: Seq<char>) -> ImportTaskModel {
    ImportTaskModel {
        file_name: name,
        file_path: child_path_spec(directory, name),
        view: inferred_view_spec(name),
    }
}

/// Whether an entry is imported: it is a file with a backup's name. Nothing
/// else is asked of it.
pub open spec fn is_backup_entry(entry: DirectoryEntryModel) -> bool {
    entry.is_file && is_backup_file_name(entry.name)
}

/// The imports for a directory listing: one for every backup among the
/// entries, in the order of the listing.
pub open spec fn restore_plan_spec(directory: Seq<char>, entries: Seq<DirectoryEntryModel>) -> Seq<
    ImportTaskModel,
>
    decreases entries.len(),
{
    if entries.len() == 0 {
        seq![]
    } else {
        let earlier = restore_plan_spec(directory, entries.drop_last());
        if is_backup_entry(entries.last()) {
            earlier.push(import_task_spec(directory, entries.last().name))
        } else {
            earlier
        }
    }
}

/// How an import ended: success, or the failure to record.
pub open spec fn import_result_spec(task: ImportTaskModel, reply: HostReply) -> Result<
    (),
    FailureModel,
> {
    if reply == HostReply::Completed {
        Ok(())
    } else {
        Err(
            FailureModel::ImportFailure {
                view: task.view,
                file_path: task.file_path,
                cause: command_cause_spec(reply),
            },
        )
    }
}

/// Whether a file name follows the backup naming scheme.
pub fn has_backup_name(name: &str) -> (b: bool)
    ensures
        b == is_backup_file_name(name@),
{
    proof {
        reveal_strlit(".reg");
    }
    let n = name.unicode_len();
    n > 4 && ends_with(name, BACKUP_EXTENSION)
}

/// The view a backup with this name is imported into.
pub fn inferred_view(name: &str) -> (view: RegistryView)
    ensures
        view == inferred_view_spec(name@),
{
    if contains(name, VIEW_64_TOKEN) {
        RegistryView::Wow64_64
    } else {
        RegistryView::Native
    }
}

/// The import of the backup file `name` found in `directory`.
pub fn import_task(directory: &str, name: &str) -> (task: ImportTask)
    ensures
        task@ == import_task_spec(directory@, name@),
{
    ImportTask {
        file_name: String::from_str(name),
        file_path: child_path(directory, name),
        view: inferred_view(name),
    }
}

impl ImportTask {
    /// The invocation that imports the file, scoped to the task's view.
    pub fn command(&self) -> (command: RegCommand)
        ensures
            command@ == self@.command(),
    {
        restore_registry(self.file_path.as_str(), self.view.is_64bit_view())
    }
}

/// The imports the agent attempts for the listing of its working directory:
/// one for every file with a backup's name, in the order of the listing. The
/// list is fixed before the first import runs, so no import's failure keeps
/// another from being attempted.
pub fn plan_restore(directory: &str, entries: &Vec<DirectoryEntry>) -> (tasks: Vec<ImportTask>)
    ensures
        tasks_model(tasks@) == restore_plan_spec(directory@, entries_model(entries@)),
{
    let mut tasks: Vec<ImportTask> = Vec::new();
    let mut i: usize = 0;
    while i < entries.len()
        invariant
            i <= entries.len(),
            tasks_model(tasks@) == restore_plan_spec(
                directory@,
                entries_model(entries@).take(i as int),
            ),
        decreases entries.len() - i,
    {
        let ghost listed = entries_model(entries@);
        assert(listed.take(i + 1).drop_last() =~= listed.take(i as int));
        let entry = &entries[i];
        if entry.is_file && has_backup_name(entry.name.as_str()) {
            let ghost earlier = tasks@;
            let task = import_task(directory, entry.name.as_str());
            tasks.push(task);
        }
        i += 1;
    }
    assert(entries_model(entries@).take(entries.len() as int) =~= entries_model(entries@));
    tasks
}

/// How an import ended: success, or the failure to record. A failure is
/// reported for its own file and does not stop the agent.
pub fn import_result(task: &ImportTask, reply: HostReply) -> (result: Result<(), Failure>)
    ensures
        result is Ok <==> reply == HostReply::Completed,
        match result {
            Ok(_) => import_result_spec(task@, reply) is Ok,
            Err(failure) => import_result_spec(task@, reply) == Err::<(), FailureModel>(failure@),
        },
{
    if reply.is_completed() {
        Ok(())
    } else {
        Err(
            Failure::ImportFailure {
                view: task.view,
                file_path: task.file_path.clone(),
                cause: command_cause(reply),
            },
        )
    }
}

/// The plan holds no more imports than the listing has entries, and every
/// import in it is for a file of the listing that has a backup's name.
pub proof fn lemma_restore_plan_covers(directory: Seq<char>, entries: Seq<DirectoryEntryModel>)
    ensures
        restore_plan_spec(directory, entries).len() <= entries.len(),
        forall|k: int|
            0 <= k < restore_plan_spec(directory, entries).len() ==> {
                let task = #[trigger] restore_plan_spec(directory, entries)[k];
                &&& is_backup_file_name(task.file_name)
                &&& task == import_task_spec(directory, task.file_name)
                &&& exists|i: int|
                    0 <= i < entries.len() && is_backup_entry(#[trigger] entries[i])
                        && entries[i].name == task.file_name
            },
        forall|i: int|
            0 <= i < entries.len() && is_backup_entry(#[trigger] entries[i]) ==> exists|k: int|
                0 <= k < restore_plan_spec(directory, entries).len() && (
                #[trigger] restore_plan_spec(directory, entries)[k]).file_name == entries[i].name,
    decreases entries.len(),
{
    if entries.len() > 0 {
        let shorter = entries.drop_last();
        lemma_restore_plan_covers(directory, shorter);
        let earlier = restore_plan_spec(directory, shorter);
        let plan = restore_plan_spec(directory, entries);
        assert forall|k: int| 0 <= k < plan.len() implies {
            let task = #[trigger] plan[k];
            &&& is_backup_file_name(task.file_name)
            &&& task == import_task_spec(directory, task.file_name)
            &&& exists|i: int|
                0 <= i < entries.len() && is_backup_entry(#[trigger] entries[i])
                    && entries[i].name == task.file_name
        } by {
            if k < earlier.len() {
                let i = choose|i: int|
                    0 <= i < shorter.len() && is_backup_entry(#[trigger] shorter[i])
                        && shorter[i].name == earlier[k].file_name;
                assert(entries[i] == shorter[i]);
            }
        }
        assert forall|i: int|
            0 <= i < entries.len() && is_backup_entry(#[trigger] entries[i]) implies exists|k: int|
            0 <= k < plan.len() && (#[trigger] plan[k]).file_name == entries[i].name by {
            if i < shorter.len() {
                let k = choose|k: int|
                    0 <= k < earlier.len() && (#[trigger] earlier[k]).file_name == shorter[i].name;
                assert(plan[k] == earlier[k]);
            } else {
                assert(plan[plan.len() - 1].file_name == entries[i].name);
            }
        }
    }
}

} // verus!
