//! What holds of whole cleanup runs, whatever the host answers: every pair is
//! processed, each pair's outcome depends on the answers to its own requests
//! alone, and no key is deleted before its export has succeeded.

use vstd::prelude::*;
use crate::backup::BackupRecordModel;
use crate::cleanup::{
    CleanupActionModel, CleanupModel, PairOutcomeModel, PairReportModel, Stage,
    delete_command_spec, delete_failure_spec, export_command_spec, export_failure_spec,
};
use crate::failure::{FailureCause, HostReply, command_cause_spec};

verus! {

/// How the pair at `index` ends when it is processed from `stage` on and the
/// host answers the request of each stage of that pair with
/// `answers(index, stage)`.
pub open spec fn pair_outcome_from(
    record: BackupRecordModel,
    stage: Stage,
    answers: spec_fn(int, Stage) -> HostReply,
    index: int,
) -> PairOutcomeModel {
    let from_delete = if answers(index, Stage::Delete) == HostReply::Completed {
        PairOutcomeModel::Cleaned
    } else {
        delete_failure_spec(record, command_cause_spec(answers(index, Stage::Delete)))
    };
    let from_export = if answers(index, Stage::Export) == HostReply::Completed {
        from_delete
    } else {
        export_failure_spec(record, command_cause_spec(answers(index, Stage::Export)))
    };
    let from_create = if answers(index, Stage::CreateFile) == HostReply::Completed {
        from_export
    } else {
        export_failure_spec(record, FailureCause::BackupFileNotCreated)
    };
    let from_probe = if answers(index, Stage::Probe) == HostReply::Completed {
        from_create
    } else {
        PairOutcomeModel::Skipped
    };
    match stage {
        Stage::Probe => from_probe,
        Stage::CreateFile => from_create,
        Stage::Export => from_export,
        Stage::Delete => from_delete,
    }
}

/// The report of the pair at `index` of a plan under the given answers.
pub open spec fn pair_report(
    plan: Seq<BackupRecordModel>,
    answers: spec_fn(int, Stage) -> HostReply,
    index: int,
) -> PairReportModel {
    PairReportModel {
        hive: plan[index].hive,
        view: plan[index].view,
        outcome: pair_outcome_from(plan[index], Stage::Probe, answers, index),
    }
}

/// The state reached from `state` after at most `fuel` replies of a host
/// that answers by `answers`.
pub open spec fn run_against(
    state: CleanupModel,
    answers: spec_fn(int, Stage) -> HostReply,
    fuel: nat,
) -> CleanupModel
    decreases fuel,
{
    if fuel == 0 || state.finished() {
        state
    } else {
        run_against(
            state.step(answers(state.cursor as int, state.stage)),
            answers,
            (fuel - 1) as nat,
        )
    }
}

/// A run that is given enough replies finishes, keeps what was reported
/// before, and reports every remaining pair with the outcome that the
/// answers to that pair's own requests determine.
pub proof fn lemma_run_reports_every_pair(
    state: CleanupModel,
    answers: spec_fn(int, Stage) -> HostReply,
    fuel: nat,
)
    requires
        state.wf(),
        fuel >= state.remaining_steps(),
    ensures
        ({
            let end = run_against(state, answers, fuel);
            &&& end.wf()
            &&& end.finished()
            &&& end.plan == state.plan
            &&& end.report.len() == state.plan.len()
            &&& forall|i: int| 0 <= i < state.cursor ==> end.report[i] == state.report[i]
            &&& !state.finished() ==> end.report[state.cursor as int] == (PairReportModel {
                hive: state.plan[state.cursor as int].hive,
                view: state.plan[state.cursor as int].view,
                outcome: pair_outcome_from(
                    state.plan[state.cursor as int],
                    state.stage,
                    answers,
                    state.cursor as int,
                ),
            })
            &&& forall|i: int|
                state.cursor < i < state.plan.len() ==> #[trigger] end.report[i] == pair_report(
                    state.plan,
                    answers,
                    i,
                )
        }),
    decreases fuel,
{
    if fuel > 0 && !state.finished() {
        let reply = answers(state.cursor as int, state.stage);
        state.lemma_step_preserves_wf(reply);
        state.lemma_step_decreases(reply);
        lemma_run_reports_every_pair(state.step(reply), answers, (fuel - 1) as nat);
    }
}

/// Total isolation: a run from the start that is given four replies per pair
/// finishes whatever the replies are, with exactly one report per pair in
/// plan order, and the outcome of each pair is the one that the answers to
/// that pair's own requests determine.
pub proof fn lemma_cleanup_attempts_every_pair(
    is_64bit: bool,
    current_path: Seq<char>,
    answers: spec_fn(int, Stage) -> HostReply,
    fuel: nat,
)
    requires
        fuel >= 4 * CleanupModel::initial(is_64bit, current_path).plan.len(),
    ensures
        ({
            let start = CleanupModel::initial(is_64bit, current_path);
            let end = run_against(start, answers, fuel);
            &&& end.finished()
            &&& end.plan == start.plan
            &&& end.report.len() == start.plan.len()
            &&& forall|i: int|
                0 <= i < start.plan.len() ==> #[trigger] end.report[i] == pair_report(
                    start.plan,
                    answers,
                    i,
                )
        }),
{
    let start = CleanupModel::initial(is_64bit, current_path);
    start.lemma_initial_wf(is_64bit, current_path);
    lemma_run_reports_every_pair(start, answers, fuel);
}

/// A failure in one pair changes nothing for another: two hosts that answer
/// the requests of the pair at `index` alike give that pair the same report,
/// however they answer for the other pairs.
pub proof fn lemma_failure_is_isolated(
    is_64bit: bool,
    current_path: Seq<char>,
    answers_a: spec_fn(int, Stage) -> HostReply,
    answers_b: spec_fn(int, Stage) -> HostReply,
    fuel: nat,
    index: int,
)
    requires
        fuel >= 4 * CleanupModel::initial(is_64bit, current_path).plan.len(),
        0 <= index < CleanupModel::initial(is_64bit, current_path).plan.len(),
        answers_a(index, Stage::Probe) == answers_b(index, Stage::Probe),
        answers_a(index, Stage::CreateFile) == answers_b(index, Stage::CreateFile),
        answers_a(index, Stage::Export) == answers_b(index, Stage::Export),
        answers_a(index, Stage::Delete) == answers_b(index, Stage::Delete),
    ensures
        run_against(CleanupModel::initial(is_64bit, current_path), answers_a, fuel).report[index]
            == run_against(
            CleanupModel::initial(is_64bit, current_path),
            answers_b,
            fuel,
        ).report[index],
{
    lemma_cleanup_attempts_every_pair(is_64bit, current_path, answers_a, fuel);
    lemma_cleanup_attempts_every_pair(is_64bit, current_path, answers_b, fuel);
}

/// Export precedes delete: a deletion is requested only as the step that
/// follows a successful export of the same record, for the same key and the
/// same view.
pub proof fn lemma_delete_follows_successful_export(state: CleanupModel, reply: HostReply)
    requires
        state.wf(),
        state.step(reply).pending_action() matches CleanupActionModel::Run { command }
            && command is Delete,
    ensures
        !state.finished(),
        state.stage == Stage::Export,
        reply == HostReply::Completed,
        state.step(reply).cursor == state.cursor,
        state.pending_action() == (CleanupActionModel::Run {
            command: export_command_spec(state.plan[state.cursor as int]),
        }),
        state.step(reply).pending_action() == (CleanupActionModel::Run {
            command: delete_command_spec(state.plan[state.cursor as int]),
        }),
{
}

/// A pair whose key is reported as cleaned or as not deleted had its export
/// answered with success; a pair that is skipped or whose export failed was
/// never asked to be deleted.
pub proof fn lemma_outcome_tells_what_ran(
    record: BackupRecordModel,
    answers: spec_fn(int, Stage) -> HostReply,
    index: int,
)
    ensures
        ({
            let outcome = pair_outcome_from(record, Stage::Probe, answers, index);
            let exported = answers(index, Stage::Probe) == HostReply::Completed && answers(
                index,
                Stage::CreateFile,
            ) == HostReply::Completed && answers(index, Stage::Export) == HostReply::Completed;
            &&& outcome is Cleaned <==> exported && answers(index, Stage::Delete)
                == HostReply::Completed
            &&& (outcome matches PairOutcomeModel::Failed { failure } && failure is DeleteFailure)
                <==> exported && answers(index, Stage::Delete) != HostReply::Completed
            &&& outcome is Skipped <==> answers(index, Stage::Probe) != HostReply::Completed
        }),
{
}

} // verus!
