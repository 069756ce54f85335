use vstd::prelude::*;
use crate::operation::{
    guards_loads, guards_writes, is_write, start, FailureRule, Finish, IdSource, OnFailure, Operation, Step,
    StepView, Table,
};
#[allow(unused_imports)]
use crate::text::{int_text, message_with_id};

use crate::models::{NewFrameworkRequest, NewFramework};

verus! {

/// The row that adding a framework to language `language_id` inserts: the
/// request's fields, under that language.
pub fn new_framework(language_id: i32, payload: NewFrameworkRequest) -> (row: NewFramework)
    ensures
        row.language_id == language_id,
        row.framework_name == payload.framework_name,
        row.display_order == payload.display_order,
{
    NewFramework {
        language_id,
        framework_name: payload.framework_name,
        display_order: payload.display_order,
    }
}


/// Fetch the resume, check it is visible, fetch the language within it, load its frameworks.
pub open spec fn list_frameworks_plan(resume_id: i32, language_id: i32) -> Seq<StepView> {
    seq![
        StepView::Fetch { table: Table::Resumes, id: IdSource::Given(resume_id), in_resume: None, on_failure: FailureRule::Generic },
        StepView::RequireVisible { resume_step: 0, on_hidden: FailureRule::Generic },
        StepView::Fetch { table: Table::Languages, id: IdSource::Given(language_id), in_resume: Some(resume_id), on_failure: FailureRule::Generic },
        StepView::Load { table: Table::Frameworks, parent: IdSource::Given(language_id), on_failure: FailureRule::Generic },
    ]
}

/// The state in which [`list_frameworks`] starts.
pub open spec fn list_frameworks_op(resume_id: i32, language_id: i32, user_id: Option<i32>) -> crate::operation::OpView {
    start(user_id, list_frameworks_plan(resume_id, language_id), Finish::Rows)
}

/// Lists the frameworks of a language of a resume that the caller may see, in
/// display order.
pub fn list_frameworks(resume_id: i32, language_id: i32, user_id: Option<i32>) -> (op: Operation)
    ensures
        op.wf(),
        op@ == list_frameworks_op(resume_id, language_id, user_id),
        guards_loads(op@.plan),
{
    let mut steps: Vec<Step> = Vec::new();
    steps.push(Step::Fetch { table: Table::Resumes, id: IdSource::Given(resume_id), in_resume: None, on_failure: OnFailure::Generic });
    steps.push(Step::RequireVisible { resume_step: 0, on_hidden: OnFailure::Generic });
    steps.push(Step::Fetch { table: Table::Languages, id: IdSource::Given(language_id), in_resume: Some(resume_id), on_failure: OnFailure::Generic });
    steps.push(Step::Load { table: Table::Frameworks, parent: IdSource::Given(language_id), on_failure: OnFailure::Generic });
    let ghost plan = steps@.map_values(|s: Step| s@);
    assert(plan[0] == steps@[0]@);
    assert(plan[1] == steps@[1]@);
    assert(plan[2] == steps@[2]@);
    assert(plan[3] == steps@[3]@);
    assert(plan =~= list_frameworks_plan(resume_id, language_id));
    assert forall|w: int| 0 <= w < plan.len() && #[trigger] plan[w] is Load implies exists|k: int| 0 <= k < w && #[trigger] plan[k] is RequireVisible by {
        assert(plan[1] is RequireVisible);
    }
    Operation::new(user_id, steps, Finish::Rows)
}

/// Fetch the resume, check ownership, fetch the language within the resume, insert the framework.
pub open spec fn create_framework_plan(resume_id: i32, language_id: i32) -> Seq<StepView> {
    seq![
        StepView::Fetch { table: Table::Resumes, id: IdSource::Given(resume_id), in_resume: None, on_failure: FailureRule::Generic },
        StepView::RequireOwner { resume_step: 0 },
        StepView::Fetch { table: Table::Languages, id: IdSource::Given(language_id), in_resume: Some(resume_id), on_failure: FailureRule::Generic },
        StepView::Insert { table: Table::Frameworks, on_failure: FailureRule::Generic },
    ]
}

/// The state in which [`create_framework`] starts.
pub open spec fn create_framework_op(user_id: i32, resume_id: i32, language_id: i32) -> crate::operation::OpView {
    start(Some(user_id), create_framework_plan(resume_id, language_id), Finish::Row)
}

/// Adds a framework to a language of a resume that the signed-in user owns; the
/// result is the inserted row.
pub fn create_framework(user_id: i32, resume_id: i32, language_id: i32) -> (op: Operation)
    ensures
        op.wf(),
        op@ == create_framework_op(user_id, resume_id, language_id),
        guards_writes(op@.plan),
{
    let mut steps: Vec<Step> = Vec::new();
    steps.push(Step::Fetch { table: Table::Resumes, id: IdSource::Given(resume_id), in_resume: None, on_failure: OnFailure::Generic });
    steps.push(Step::RequireOwner { resume_step: 0 });
    steps.push(Step::Fetch { table: Table::Languages, id: IdSource::Given(language_id), in_resume: Some(resume_id), on_failure: OnFailure::Generic });
    steps.push(Step::Insert { table: Table::Frameworks, on_failure: OnFailure::Generic });
    let ghost plan = steps@.map_values(|s: Step| s@);
    assert(plan[0] == steps@[0]@);
    assert(plan[1] == steps@[1]@);
    assert(plan[2] == steps@[2]@);
    assert(plan[3] == steps@[3]@);
    assert(plan =~= create_framework_plan(resume_id, language_id));
    assert forall|w: int| 0 <= w < plan.len() && is_write(#[trigger] plan[w]) implies exists|k: int| 0 <= k < w && #[trigger] plan[k] is RequireOwner by {
        assert(plan[1] is RequireOwner);
    }
    Operation::new(Some(user_id), steps, Finish::Row)
}

/// Fetch the framework, its language and their resume, check ownership, update the framework.
pub open spec fn update_framework_plan(framework_id: i32) -> Seq<StepView> {
    seq![
        StepView::Fetch { table: Table::Frameworks, id: IdSource::Given(framework_id), in_resume: None, on_failure: FailureRule::Generic },
        StepView::Fetch { table: Table::Languages, id: IdSource::ParentOf(0), in_resume: None, on_failure: FailureRule::Generic },
        StepView::Fetch { table: Table::Resumes, id: IdSource::ParentOf(1), in_resume: None, on_failure: FailureRule::Generic },
        StepView::RequireOwner { resume_step: 2 },
        StepView::Update { table: Table::Frameworks, id: IdSource::Given(framework_id), on_failure: FailureRule::Generic },
    ]
}

/// The state in which [`update_framework`] starts.
pub open spec fn update_framework_op(user_id: i32, framework_id: i32) -> crate::operation::OpView {
    start(Some(user_id), update_framework_plan(framework_id), Finish::RowAndParentOf(1))
}

/// Changes a framework of a resume that the signed-in user owns; the result is
/// the updated row and the id of the resume.
pub fn update_framework(user_id: i32, framework_id: i32) -> (op: Operation)
    ensures
        op.wf(),
        op@ == update_framework_op(user_id, framework_id),
        guards_writes(op@.plan),
{
    let mut steps: Vec<Step> = Vec::new();
    steps.push(Step::Fetch { table: Table::Frameworks, id: IdSource::Given(framework_id), in_resume: None, on_failure: OnFailure::Generic });
    steps.push(Step::Fetch { table: Table::Languages, id: IdSource::ParentOf(0), in_resume: None, on_failure: OnFailure::Generic });
    steps.push(Step::Fetch { table: Table::Resumes, id: IdSource::ParentOf(1), in_resume: None, on_failure: OnFailure::Generic });
    steps.push(Step::RequireOwner { resume_step: 2 });
    steps.push(Step::Update { table: Table::Frameworks, id: IdSource::Given(framework_id), on_failure: OnFailure::Generic });
    let ghost plan = steps@.map_values(|s: Step| s@);
    assert(plan[0] == steps@[0]@);
    assert(plan[1] == steps@[1]@);
    assert(plan[2] == steps@[2]@);
    assert(plan[3] == steps@[3]@);
    assert(plan[4] == steps@[4]@);
    assert(plan =~= update_framework_plan(framework_id));
    assert forall|w: int| 0 <= w < plan.len() && is_write(#[trigger] plan[w]) implies exists|k: int| 0 <= k < w && #[trigger] plan[k] is RequireOwner by {
        assert(plan[3] is RequireOwner);
    }
    Operation::new(Some(user_id), steps, Finish::RowAndParentOf(1))
}

/// Fetch the framework, its language and their resume, check ownership, delete the framework.
pub open spec fn delete_framework_plan(framework_id: i32) -> Seq<StepView> {
    seq![
        StepView::Fetch { table: Table::Frameworks, id: IdSource::Given(framework_id), in_resume: None, on_failure: FailureRule::Generic },
        StepView::Fetch { table: Table::Languages, id: IdSource::ParentOf(0), in_resume: None, on_failure: FailureRule::Generic },
        StepView::Fetch { table: Table::Resumes, id: IdSource::ParentOf(1), in_resume: None, on_failure: FailureRule::Generic },
        StepView::RequireOwner { resume_step: 2 },
        StepView::Delete { table: Table::Frameworks, id: IdSource::Given(framework_id), on_failure: FailureRule::Generic, nothing_deleted: "Framework with id "@ + int_text(framework_id as int) + " not found"@ },
    ]
}

/// The state in which [`delete_framework`] starts.
pub open spec fn delete_framework_op(user_id: i32, framework_id: i32) -> crate::operation::OpView {
    start(Some(user_id), delete_framework_plan(framework_id), Finish::ParentOf(1))
}

/// Removes a framework from a resume that the signed-in user owns; the result is the id of the resume.
pub fn delete_framework(user_id: i32, framework_id: i32) -> (op: Operation)
    ensures
        op.wf(),
        op@ == delete_framework_op(user_id, framework_id),
        guards_writes(op@.plan),
{
    let mut steps: Vec<Step> = Vec::new();
    steps.push(Step::Fetch { table: Table::Frameworks, id: IdSource::Given(framework_id), in_resume: None, on_failure: OnFailure::Generic });
    steps.push(Step::Fetch { table: Table::Languages, id: IdSource::ParentOf(0), in_resume: None, on_failure: OnFailure::Generic });
    steps.push(Step::Fetch { table: Table::Resumes, id: IdSource::ParentOf(1), in_resume: None, on_failure: OnFailure::Generic });
    steps.push(Step::RequireOwner { resume_step: 2 });
    steps.push(Step::Delete { table: Table::Frameworks, id: IdSource::Given(framework_id), on_failure: OnFailure::Generic, nothing_deleted: message_with_id("Framework with id ", framework_id, " not found") });
    let ghost plan = steps@.map_values(|s: Step| s@);
    assert(plan[0] == steps@[0]@);
    assert(plan[1] == steps@[1]@);
    assert(plan[2] == steps@[2]@);
    assert(plan[3] == steps@[3]@);
    assert(plan[4] == steps@[4]@);
    assert(plan =~= delete_framework_plan(framework_id));
    assert forall|w: int| 0 <= w < plan.len() && is_write(#[trigger] plan[w]) implies exists|k: int| 0 <= k < w && #[trigger] plan[k] is RequireOwner by {
        assert(plan[3] is RequireOwner);
    }
    Operation::new(Some(user_id), steps, Finish::ParentOf(1))
}
/// Listing: once the resume named by `resume_id` is found public or the caller's, and `language_id` is found among its rows, the rows loaded are those whose parent is `language_id`, and loading them finishes the request.
pub proof fn lemma_list_frameworks_loads_the_named_parent(resume_id: i32, language_id: i32, user_id: Option<i32>, created_by: Option<i32>, is_public: bool)
    requires
        is_public || (user_id is Some && created_by == user_id),
    ensures
        crate::operation::request_of(list_frameworks_op(resume_id, language_id, user_id)) == Some(crate::operation::DbRequest::Fetch { table: crate::operation::Table::Resumes, id: resume_id, in_resume: None }),
        crate::operation::request_of(crate::operation::after_reply(list_frameworks_op(resume_id, language_id, user_id), crate::operation::ReplyView::Found(crate::operation::RowRef::Resume { created_by: created_by, is_public: is_public }))) == Some(crate::operation::DbRequest::Fetch { table: crate::operation::Table::Languages, id: language_id, in_resume: Some(resume_id) }),
        crate::operation::request_of(crate::operation::after_reply(crate::operation::after_reply(list_frameworks_op(resume_id, language_id, user_id), crate::operation::ReplyView::Found(crate::operation::RowRef::Resume { created_by: created_by, is_public: is_public })), crate::operation::ReplyView::Found(crate::operation::RowRef::Child { parent: resume_id }))) == Some(crate::operation::DbRequest::Load { table: crate::operation::Table::Frameworks, parent_id: language_id }),
        crate::operation::after_reply(crate::operation::after_reply(crate::operation::after_reply(list_frameworks_op(resume_id, language_id, user_id), crate::operation::ReplyView::Found(crate::operation::RowRef::Resume { created_by: created_by, is_public: is_public })), crate::operation::ReplyView::Found(crate::operation::RowRef::Child { parent: resume_id })), crate::operation::ReplyView::Loaded).result == Some(Ok::<crate::operation::Outcome, crate::error::AppErr>(crate::operation::Outcome::Rows)),
{
    reveal_with_fuel(crate::operation::settle, 4);
}

/// Adding a framework: the resume named by `resume_id` is fetched, and once it is the caller's, the Languages row `language_id` of that same resume; only then is the insert requested, and a successful insert finishes the request.
pub proof fn lemma_create_framework_inserts_into_the_named_resume(user_id: i32, resume_id: i32, language_id: i32, is_public: bool)
    ensures
        crate::operation::request_of(create_framework_op(user_id, resume_id, language_id)) == Some(crate::operation::DbRequest::Fetch { table: crate::operation::Table::Resumes, id: resume_id, in_resume: None }),
        crate::operation::request_of(crate::operation::after_reply(create_framework_op(user_id, resume_id, language_id), crate::operation::ReplyView::Found(crate::operation::RowRef::Resume { created_by: Some(user_id), is_public: is_public }))) == Some(crate::operation::DbRequest::Fetch { table: crate::operation::Table::Languages, id: language_id, in_resume: Some(resume_id) }),
        crate::operation::request_of(crate::operation::after_reply(crate::operation::after_reply(create_framework_op(user_id, resume_id, language_id), crate::operation::ReplyView::Found(crate::operation::RowRef::Resume { created_by: Some(user_id), is_public: is_public })), crate::operation::ReplyView::Found(crate::operation::RowRef::Child { parent: resume_id }))) == Some(crate::operation::DbRequest::Insert { table: crate::operation::Table::Frameworks }),
        crate::operation::after_reply(crate::operation::after_reply(crate::operation::after_reply(create_framework_op(user_id, resume_id, language_id), crate::operation::ReplyView::Found(crate::operation::RowRef::Resume { created_by: Some(user_id), is_public: is_public })), crate::operation::ReplyView::Found(crate::operation::RowRef::Child { parent: resume_id })), crate::operation::ReplyView::Written).result == Some(Ok::<crate::operation::Outcome, crate::error::AppErr>(crate::operation::Outcome::Row)),
{
    reveal_with_fuel(crate::operation::settle, 4);
}

/// Updating a framework: the framework named by `framework_id` is fetched, then the resume it belongs to; once that resume is found to be the caller's, the update is requested for exactly `framework_id`, and a successful write finishes the request.
pub proof fn lemma_update_framework_acts_on_the_named_row(user_id: i32, framework_id: i32, parent_id: i32, resume_id: i32, is_public: bool)
    ensures
        crate::operation::request_of(update_framework_op(user_id, framework_id)) == Some(crate::operation::DbRequest::Fetch { table: crate::operation::Table::Frameworks, id: framework_id, in_resume: None }),
        crate::operation::request_of(crate::operation::after_reply(update_framework_op(user_id, framework_id), crate::operation::ReplyView::Found(crate::operation::RowRef::Child { parent: parent_id }))) == Some(crate::operation::DbRequest::Fetch { table: crate::operation::Table::Languages, id: parent_id, in_resume: None }),
        crate::operation::request_of(crate::operation::after_reply(crate::operation::after_reply(update_framework_op(user_id, framework_id), crate::operation::ReplyView::Found(crate::operation::RowRef::Child { parent: parent_id })), crate::operation::ReplyView::Found(crate::operation::RowRef::Child { parent: resume_id }))) == Some(crate::operation::DbRequest::Fetch { table: crate::operation::Table::Resumes, id: resume_id, in_resume: None }),
        crate::operation::request_of(crate::operation::after_reply(crate::operation::after_reply(crate::operation::after_reply(update_framework_op(user_id, framework_id), crate::operation::ReplyView::Found(crate::operation::RowRef::Child { parent: parent_id })), crate::operation::ReplyView::Found(crate::operation::RowRef::Child { parent: resume_id })), crate::operation::ReplyView::Found(crate::operation::RowRef::Resume { created_by: Some(user_id), is_public: is_public }))) == Some(crate::operation::DbRequest::Update { table: crate::operation::Table::Frameworks, id: framework_id }),
        crate::operation::after_reply(crate::operation::after_reply(crate::operation::after_reply(crate::operation::after_reply(update_framework_op(user_id, framework_id), crate::operation::ReplyView::Found(crate::operation::RowRef::Child { parent: parent_id })), crate::operation::ReplyView::Found(crate::operation::RowRef::Child { parent: resume_id })), crate::operation::ReplyView::Found(crate::operation::RowRef::Resume { created_by: Some(user_id), is_public: is_public })), crate::operation::ReplyView::Written).result == Some(Ok::<crate::operation::Outcome, crate::error::AppErr>(crate::operation::Outcome::RowAndResumeId(resume_id))),
{
    reveal_with_fuel(crate::operation::settle, 4);
}

/// Deleting a framework: the framework named by `framework_id` is fetched, then the resume it belongs to; once that resume is found to be the caller's, the delete is requested for exactly `framework_id`, and removing a row finishes the request, reporting that resume.
pub proof fn lemma_delete_framework_acts_on_the_named_row(user_id: i32, framework_id: i32, parent_id: i32, resume_id: i32, is_public: bool, deleted: u64)
    requires
        deleted > 0,
    ensures
        crate::operation::request_of(delete_framework_op(user_id, framework_id)) == Some(crate::operation::DbRequest::Fetch { table: crate::operation::Table::Frameworks, id: framework_id, in_resume: None }),
        crate::operation::request_of(crate::operation::after_reply(delete_framework_op(user_id, framework_id), crate::operation::ReplyView::Found(crate::operation::RowRef::Child { parent: parent_id }))) == Some(crate::operation::DbRequest::Fetch { table: crate::operation::Table::Languages, id: parent_id, in_resume: None }),
        crate::operation::request_of(crate::operation::after_reply(crate::operation::after_reply(delete_framework_op(user_id, framework_id), crate::operation::ReplyView::Found(crate::operation::RowRef::Child { parent: parent_id })), crate::operation::ReplyView::Found(crate::operation::RowRef::Child { parent: resume_id }))) == Some(crate::operation::DbRequest::Fetch { table: crate::operation::Table::Resumes, id: resume_id, in_resume: None }),
        crate::operation::request_of(crate::operation::after_reply(crate::operation::after_reply(crate::operation::after_reply(delete_framework_op(user_id, framework_id), crate::operation::ReplyView::Found(crate::operation::RowRef::Child { parent: parent_id })), crate::operation::ReplyView::Found(crate::operation::RowRef::Child { parent: resume_id })), crate::operation::ReplyView::Found(crate::operation::RowRef::Resume { created_by: Some(user_id), is_public: is_public }))) == Some(crate::operation::DbRequest::Delete { table: crate::operation::Table::Frameworks, id: framework_id }),
        crate::operation::after_reply(crate::operation::after_reply(crate::operation::after_reply(crate::operation::after_reply(delete_framework_op(user_id, framework_id), crate::operation::ReplyView::Found(crate::operation::RowRef::Child { parent: parent_id })), crate::operation::ReplyView::Found(crate::operation::RowRef::Child { parent: resume_id })), crate::operation::ReplyView::Found(crate::operation::RowRef::Resume { created_by: Some(user_id), is_public: is_public })), crate::operation::ReplyView::Deleted(deleted)).result == Some(Ok::<crate::operation::Outcome, crate::error::AppErr>(crate::operation::Outcome::ResumeId(resume_id))),
{
    reveal_with_fuel(crate::operation::settle, 4);
}

} // verus!
