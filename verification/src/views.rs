//! The view resolver: which registry views of a hive's startup key a host
//! has, in the order in which they are processed.

use vstd::prelude::*;
use crate::constants::{BACKUP_EXTENSION, REGISTRY_STARTUP_PATH, REGISTRY_STARTUP_PATH_WOW};
use crate::hive::{Hive, RegistryView};

verus! {

/// One view of a startup key that has to be processed: the view, the key's
/// path below the hive as commands for that view name it, and the end of the
/// backup file's name.
#[derive(Clone, Copy, Debug, PartialEq, Eq)]
pub struct ViewTarget {
    pub view: RegistryView,
    pub key_path_suffix: &'static str,
    pub file_suffix: &'static str,
}

/// What a `ViewTarget` stands for.
pub struct ViewTargetModel {
    pub view: RegistryView,
    pub key_path_suffix: Seq<char>,
    pub file_suffix: Seq<char>,
}

impl View for ViewTarget {
    type V = ViewTargetModel;

    open spec fn view(&self) -> ViewTargetModel {
        ViewTargetModel {
            view: self.view,
            key_path_suffix: self.key_path_suffix@,
            file_suffix: self.file_suffix@,
        }
    }
}

/// The startup key's path below a hive, as commands for `view` name it. The
/// 32-bit view of a 64-bit host is reached through the redirected subtree.
pub open spec fn key_path_suffix_spec(view: RegistryView) -> Seq<char> {
    match view {
        RegistryView::Wow64_32 => REGISTRY_STARTUP_PATH_WOW@,
        _ => REGISTRY_STARTUP_PATH@,
    }
}

/// The end of a backup file's name: the view's marker and the extension.
pub open spec fn file_suffix_spec(view: RegistryView) -> Seq<char> {
    view.file_marker_spec() + BACKUP_EXTENSION@
}

/// The target for one view.
pub open spec fn target_spec(view: RegistryView) -> ViewTargetModel {
    ViewTargetModel {
        view,
        key_path_suffix: key_path_suffix_spec(view),
        file_suffix: file_suffix_spec(view),
    }
}

/// The views of a host, in processing order: on a 64-bit host the 64-bit view
/// and then the 32-bit view; on a 32-bit host the native view alone.
pub open spec fn host_views(is_64bit: bool) -> Seq<RegistryView> {
    if is_64bit {
        seq![RegistryView::Wow64_64, RegistryView::Wow64_32]
    } else {
        seq![RegistryView::Native]
    }
}

/// The targets to process for a hive on a host of the given bitness.
pub open spec fn resolve_views_spec(hive: Hive, is_64bit: bool) -> Seq<ViewTargetModel> {
    host_views(is_64bit).map_values(|view: RegistryView| target_spec(view))
}

/// What a list of targets stands for.
pub open spec fn targets_model(targets: Seq<ViewTarget>) -> Seq<ViewTargetModel> {
    targets.map_values(|t: ViewTarget| t@)
}

/// The target for one view.
pub fn view_target(view: RegistryView) -> (t: ViewTarget)
    ensures
        t@ == target_spec(view),
{
    proof {
        reveal_strlit("");
        reveal_strlit("x32");
        reveal_strlit("x64");
        reveal_strlit(".reg");
        reveal_strlit("x32.reg");
        reveal_strlit("x64.reg");
        assert("x64.reg"@ =~= "x64"@ + ".reg"@);
        assert("x32.reg"@ =~= "x32"@ + ".reg"@);
    }
    match view {
        RegistryView::Native => ViewTarget {
            view,
            key_path_suffix: REGISTRY_STARTUP_PATH,
            file_suffix: ".reg",
        },
        RegistryView::Wow64_32 => ViewTarget {
            view,
            key_path_suffix: REGISTRY_STARTUP_PATH_WOW,
            file_suffix: "x32.reg",
        },
        RegistryView::Wow64_64 => ViewTarget {
            view,
            key_path_suffix: REGISTRY_STARTUP_PATH,
            file_suffix: "x64.reg",
        },
    }
}

/// The ordered list of targets to process for `hive` on a host of the given
/// bitness. The list is never empty, and is the same for every hive.
pub fn resolve_views(hive: Hive, is_64bit: bool) -> (targets: Vec<ViewTarget>)
    ensures
        targets_model(targets@) == resolve_views_spec(hive, is_64bit),
        targets.len() == host_views(is_64bit).len(),
        targets.len() == (if is_64bit {
            2int
        } else {
            1int
        }),
        forall|i: int|
            0 <= i < targets.len() ==> (#[trigger] targets[i])@ == target_spec(
                host_views(is_64bit)[i],
            ),
{
    let mut targets: Vec<ViewTarget> = Vec::new();
    if is_64bit {
        targets.push(view_target(RegistryView::Wow64_64));
        targets.push(view_target(RegistryView::Wow64_32));
    } else {
        targets.push(view_target(RegistryView::Native));
    }
    targets
}

/// The redirected path of the 32-bit view is not the nominal path: the two
/// views of a 64-bit host are addressed by different keys.
pub proof fn lemma_redirected_path_differs()
    ensures
        key_path_suffix_spec(RegistryView::Wow64_32) != key_path_suffix_spec(
            RegistryView::Wow64_64,
        ),
        key_path_suffix_spec(RegistryView::Native) == key_path_suffix_spec(RegistryView::Wow64_64),
{
    reveal_strlit("SOFTWARE\\Microsoft\\Windows\\CurrentVersion\\Run");
    reveal_strlit("SOFTWARE\\WOW6432Node\\Microsoft\\Windows\\CurrentVersion\\Run");
}

/// Every host has at least one view, no view is listed twice, and the views
/// of hosts of different bitness are disjoint.
pub proof fn lemma_host_views_distinct(is_64bit: bool)
    ensures
        host_views(is_64bit).len() >= 1,
        host_views(is_64bit).no_duplicates(),
        forall|i: int, j: int|
            0 <= i < host_views(true).len() && 0 <= j < host_views(false).len()
                ==> host_views(true)[i] != host_views(false)[j],
{
}

/// The file suffixes of different views differ.
pub proof fn lemma_file_suffix_injective(a: RegistryView, b: RegistryView)
    ensures
        file_suffix_spec(a) == file_suffix_spec(b) ==> a == b,
{
    reveal_strlit("");
    reveal_strlit("x32");
    reveal_strlit("x64");
    reveal_strlit(".reg");
    if a != b && file_suffix_spec(a) == file_suffix_spec(b) {
        let sa = file_suffix_spec(a);
        let sb = file_suffix_spec(b);
        assert(sa[1] == sb[1]);
    }
}

} // verus!
