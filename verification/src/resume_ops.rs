use vstd::prelude::*;
use crate::error::{AppErr, DbErr};
use crate::operation::{
    after_reply, visible_to, Outcome, ReplyView, RowRef,
    guards_loads, guards_writes, is_write, start, FailureRule, Finish, IdSource, OnFailure, Operation, Step,
    StepView, Table,
};
#[allow(unused_imports)]
use crate::text::{int_text, message_with_id};

verus! {

/// Fetch the resume.
pub open spec fn find_resume_plan(resume_id: i32) -> Seq<StepView> {
    seq![
        StepView::Fetch { table: Table::Resumes, id: IdSource::Given(resume_id), in_resume: None, on_failure: FailureRule::Generic },
    ]
}

/// The state in which [`find_resume`] starts.
pub open spec fn find_resume_op(resume_id: i32) -> crate::operation::OpView {
    start(None, find_resume_plan(resume_id), Finish::Row)
}

/// Looks a resume up by id.
pub fn find_resume(resume_id: i32) -> (op: Operation)
    ensures
        op.wf(),
        op@ == find_resume_op(resume_id),
{
    let mut steps: Vec<Step> = Vec::new();
    steps.push(Step::Fetch { table: Table::Resumes, id: IdSource::Given(resume_id), in_resume: None, on_failure: OnFailure::Generic });
    let ghost plan = steps@.map_values(|s: Step| s@);
    assert(plan[0] == steps@[0]@);
    assert(plan =~= find_resume_plan(resume_id));
    Operation::new(None, steps, Finish::Row)
}

/// Fetch the resume and check it is visible; a missing or hidden resume is reported alike.
pub open spec fn list_resume_plan(resume_id: i32) -> Seq<StepView> {
    seq![
        StepView::Fetch { table: Table::Resumes, id: IdSource::Given(resume_id), in_resume: None, on_failure: FailureRule::Missing("Error selecting resume with id "@ + int_text(resume_id as int) + " - Record not found"@) },
        StepView::RequireVisible { resume_step: 0, on_hidden: FailureRule::Missing("Error selecting resume with id "@ + int_text(resume_id as int) + " - Record not found"@) },
    ]
}

/// The state in which [`list_resume`] starts.
pub open spec fn list_resume_op(resume_id: i32, user_id: Option<i32>) -> crate::operation::OpView {
    start(user_id, list_resume_plan(resume_id), Finish::Row)
}

/// Reads a resume that the caller may see (public, or owned by the
/// signed-in user).
pub fn list_resume(resume_id: i32, user_id: Option<i32>) -> (op: Operation)
    ensures
        op.wf(),
        op@ == list_resume_op(resume_id, user_id),
{
    let mut steps: Vec<Step> = Vec::new();
    steps.push(Step::Fetch { table: Table::Resumes, id: IdSource::Given(resume_id), in_resume: None, on_failure: OnFailure::Missing(message_with_id("Error selecting resume with id ", resume_id, " - Record not found")) });
    steps.push(Step::RequireVisible { resume_step: 0, on_hidden: OnFailure::Missing(message_with_id("Error selecting resume with id ", resume_id, " - Record not found")) });
    let ghost plan = steps@.map_values(|s: Step| s@);
    assert(plan[0] == steps@[0]@);
    assert(plan[1] == steps@[1]@);
    assert(plan =~= list_resume_plan(resume_id));
    Operation::new(user_id, steps, Finish::Row)
}

/// Fetch the resume (a missing one is reported with its id), check
/// ownership, update it.
pub open spec fn update_resume_plan(resume_id: i32) -> Seq<StepView> {
    seq![
        StepView::Fetch { table: Table::Resumes, id: IdSource::Given(resume_id), in_resume: None, on_failure: FailureRule::MissingElseGeneric("Resume with id "@ + int_text(resume_id as int) + " not found"@) },
        StepView::RequireOwner { resume_step: 0 },
        StepView::Update { table: Table::Resumes, id: IdSource::Given(resume_id), on_failure: FailureRule::Generic },
    ]
}

/// The state in which [`update_resume`] starts.
pub open spec fn update_resume_op(user_id: i32, resume_id: i32) -> crate::operation::OpView {
    start(Some(user_id), update_resume_plan(resume_id), Finish::Row)
}

/// Changes the personal information of a resume that the signed-in user
/// owns; the result is the updated row.
pub fn update_resume(user_id: i32, resume_id: i32) -> (op: Operation)
    ensures
        op.wf(),
        op@ == update_resume_op(user_id, resume_id),
        guards_writes(op@.plan),
{
    let mut steps: Vec<Step> = Vec::new();
    steps.push(Step::Fetch { table: Table::Resumes, id: IdSource::Given(resume_id), in_resume: None, on_failure: OnFailure::MissingElseGeneric(message_with_id("Resume with id ", resume_id, " not found")) });
    steps.push(Step::RequireOwner { resume_step: 0 });
    steps.push(Step::Update { table: Table::Resumes, id: IdSource::Given(resume_id), on_failure: OnFailure::Generic });
    let ghost plan = steps@.map_values(|s: Step| s@);
    assert(plan[0] == steps@[0]@);
    assert(plan[1] == steps@[1]@);
    assert(plan[2] == steps@[2]@);
    assert(plan =~= update_resume_plan(resume_id));
    assert forall|w: int| 0 <= w < plan.len() && is_write(#[trigger] plan[w]) implies exists|k: int| 0 <= k < w && #[trigger] plan[k] is RequireOwner by {
        assert(plan[1] is RequireOwner);
    }
    Operation::new(Some(user_id), steps, Finish::Row)
}

/// Fetch the resume, check ownership, delete it.
pub open spec fn delete_resume_plan(resume_id: i32) -> Seq<StepView> {
    seq![
        StepView::Fetch { table: Table::Resumes, id: IdSource::Given(resume_id), in_resume: None, on_failure: FailureRule::Missing("Resume with id "@ + int_text(resume_id as int) + " not found"@) },
        StepView::RequireOwner { resume_step: 0 },
        StepView::Delete { table: Table::Resumes, id: IdSource::Given(resume_id), on_failure: FailureRule::Internal, nothing_deleted: "Resume with id "@ + int_text(resume_id as int) + " not found"@ },
    ]
}

/// The state in which [`delete_resume`] starts.
pub open spec fn delete_resume_op(user_id: i32, resume_id: i32) -> crate::operation::OpView {
    start(Some(user_id), delete_resume_plan(resume_id), Finish::Nothing)
}

/// Removes a resume that the signed-in user owns.
pub fn delete_resume(user_id: i32, resume_id: i32) -> (op: Operation)
    ensures
        op.wf(),
        op@ == delete_resume_op(user_id, resume_id),
        guards_writes(op@.plan),
{
    let mut steps: Vec<Step> = Vec::new();
    steps.push(Step::Fetch { table: Table::Resumes, id: IdSource::Given(resume_id), in_resume: None, on_failure: OnFailure::Missing(message_with_id("Resume with id ", resume_id, " not found")) });
    steps.push(Step::RequireOwner { resume_step: 0 });
    steps.push(Step::Delete { table: Table::Resumes, id: IdSource::Given(resume_id), on_failure: OnFailure::Internal, nothing_deleted: message_with_id("Resume with id ", resume_id, " not found") });
    let ghost plan = steps@.map_values(|s: Step| s@);
    assert(plan[0] == steps@[0]@);
    assert(plan[1] == steps@[1]@);
    assert(plan[2] == steps@[2]@);
    assert(plan =~= delete_resume_plan(resume_id));
    assert forall|w: int| 0 <= w < plan.len() && is_write(#[trigger] plan[w]) implies exists|k: int| 0 <= k < w && #[trigger] plan[k] is RequireOwner by {
        assert(plan[1] is RequireOwner);
    }
    Operation::new(Some(user_id), steps, Finish::Nothing)
}

/// A resume the caller may not see is answered exactly as a resume that
/// does not exist: the same `NotFound` message, which names the id.
pub proof fn lemma_hidden_resume_reads_as_missing(resume_id: i32, viewer: Option<i32>, created_by: Option<i32>)
    requires
        !visible_to(created_by, false, viewer),
    ensures
        after_reply(
            start(viewer, list_resume_plan(resume_id), Finish::Row),
            ReplyView::Found(RowRef::Resume { created_by, is_public: false }),
        ).result == after_reply(
            start(viewer, list_resume_plan(resume_id), Finish::Row),
            ReplyView::Failed(DbErr::NotFound),
        ).result,
        after_reply(
            start(viewer, list_resume_plan(resume_id), Finish::Row),
            ReplyView::Failed(DbErr::NotFound),
        ).result == Some(Err::<Outcome, AppErr>(AppErr::NotFound(
            "Error selecting resume with id "@ + int_text(resume_id as int) + " - Record not found"@,
        ))),
{
}

/// Only the owner may change a resume: updating or deleting a resume that
/// another user (or no one) owns ends with `Forbidden` before anything is written.
pub proof fn lemma_non_owner_cannot_change_resume(user_id: i32, resume_id: i32, created_by: Option<i32>, is_public: bool)
    requires
        created_by != Some(user_id),
    ensures
        after_reply(
            start(Some(user_id), update_resume_plan(resume_id), Finish::Row),
            ReplyView::Found(RowRef::Resume { created_by, is_public }),
        ).result == Some(Err::<Outcome, AppErr>(AppErr::Forbidden)),
        after_reply(
            start(Some(user_id), delete_resume_plan(resume_id), Finish::Nothing),
            ReplyView::Found(RowRef::Resume { created_by, is_public }),
        ).result == Some(Err::<Outcome, AppErr>(AppErr::Forbidden)),
{
}

/// Updating or deleting a resume that does not exist is `NotFound`, with a
/// message that names the id.
pub proof fn lemma_missing_resume_change_names_id(user_id: i32, resume_id: i32)
    ensures
        after_reply(
            start(Some(user_id), update_resume_plan(resume_id), Finish::Row),
            ReplyView::Failed(DbErr::NotFound),
        ).result == Some(Err::<Outcome, AppErr>(AppErr::NotFound(
            "Resume with id "@ + int_text(resume_id as int) + " not found"@,
        ))),
        after_reply(
            start(Some(user_id), delete_resume_plan(resume_id), Finish::Nothing),
            ReplyView::Failed(DbErr::NotFound),
        ).result == Some(Err::<Outcome, AppErr>(AppErr::NotFound(
            "Resume with id "@ + int_text(resume_id as int) + " not found"@,
        ))),
{
}

/// Updating a resume: the resume named by `resume_id` is fetched, then the resume it belongs to; once that resume is found to be the caller's, the update is requested for exactly `resume_id`, and a successful write finishes the request.
pub proof fn lemma_update_resume_acts_on_the_named_row(user_id: i32, resume_id: i32, is_public: bool)
    ensures
        crate::operation::request_of(update_resume_op(user_id, resume_id)) == Some(crate::operation::DbRequest::Fetch { table: crate::operation::Table::Resumes, id: resume_id, in_resume: None }),
        crate::operation::request_of(crate::operation::after_reply(update_resume_op(user_id, resume_id), crate::operation::ReplyView::Found(crate::operation::RowRef::Resume { created_by: Some(user_id), is_public: is_public }))) == Some(crate::operation::DbRequest::Update { table: crate::operation::Table::Resumes, id: resume_id }),
        crate::operation::after_reply(crate::operation::after_reply(update_resume_op(user_id, resume_id), crate::operation::ReplyView::Found(crate::operation::RowRef::Resume { created_by: Some(user_id), is_public: is_public })), crate::operation::ReplyView::Written).result == Some(Ok::<crate::operation::Outcome, crate::error::AppErr>(crate::operation::Outcome::Row)),
{
    reveal_with_fuel(crate::operation::settle, 4);
}

/// Deleting a resume: the resume named by `resume_id` is fetched, then the resume it belongs to; once that resume is found to be the caller's, the delete is requested for exactly `resume_id`, and removing a row finishes the request.
pub proof fn lemma_delete_resume_acts_on_the_named_row(user_id: i32, resume_id: i32, is_public: bool, deleted: u64)
    requires
        deleted > 0,
    ensures
        crate::operation::request_of(delete_resume_op(user_id, resume_id)) == Some(crate::operation::DbRequest::Fetch { table: crate::operation::Table::Resumes, id: resume_id, in_resume: None }),
        crate::operation::request_of(crate::operation::after_reply(delete_resume_op(user_id, resume_id), crate::operation::ReplyView::Found(crate::operation::RowRef::Resume { created_by: Some(user_id), is_public: is_public }))) == Some(crate::operation::DbRequest::Delete { table: crate::operation::Table::Resumes, id: resume_id }),
        crate::operation::after_reply(crate::operation::after_reply(delete_resume_op(user_id, resume_id), crate::operation::ReplyView::Found(crate::operation::RowRef::Resume { created_by: Some(user_id), is_public: is_public })), crate::operation::ReplyView::Deleted(deleted)).result == Some(Ok::<crate::operation::Outcome, crate::error::AppErr>(crate::operation::Outcome::Nothing)),
{
    reveal_with_fuel(crate::operation::settle, 4);
}

} // verus!
