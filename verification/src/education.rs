use vstd::prelude::*;
use crate::operation::{
    guards_loads, guards_writes, is_write, start, FailureRule, Finish, IdSource, OnFailure, Operation, Step,
    StepView, Table,
};
#[allow(unused_imports)]
use crate::text::{int_text, message_with_id};

use crate::models::{NewEducationRequest, NewEducation, NewEducationKeyPointRequest, NewEducationKeyPoint};

verus! {

/// The row that adding a education entry to resume `resume_id` inserts: the
/// request's fields, under that resume.
pub fn new_education(resume_id: i32, payload: NewEducationRequest) -> (row: NewEducation)
    ensures
        row.resume_id == resume_id,
        row.education_stage == payload.education_stage,
        row.institution_name == payload.institution_name,
        row.degree == payload.degree,
        row.start_date == payload.start_date,
        row.end_date == payload.end_date,
        row.description == payload.description,
        row.display_order == payload.display_order,
{
    NewEducation {
        resume_id,
        education_stage: payload.education_stage,
        institution_name: payload.institution_name,
        degree: payload.degree,
        start_date: payload.start_date,
        end_date: payload.end_date,
        description: payload.description,
        display_order: payload.display_order,
    }
}

/// The row that adding a education key point to education entry `education_id` inserts: the
/// request's fields, under that education entry.
pub fn new_education_key_point(education_id: i32, payload: NewEducationKeyPointRequest) -> (row: NewEducationKeyPoint)
    ensures
        row.education_id == education_id,
        row.key_point == payload.key_point,
        row.display_order == payload.display_order,
{
    NewEducationKeyPoint {
        education_id,
        key_point: payload.key_point,
        display_order: payload.display_order,
    }
}


/// Fetch the resume, check it is visible, load its education entries.
pub open spec fn list_educations_plan(resume_id: i32) -> Seq<StepView> {
    seq![
        StepView::Fetch { table: Table::Resumes, id: IdSource::Given(resume_id), in_resume: None, on_failure: FailureRule::Generic },
        StepView::RequireVisible { resume_step: 0, on_hidden: FailureRule::Generic },
        StepView::Load { table: Table::Education, parent: IdSource::Given(resume_id), on_failure: FailureRule::Generic },
    ]
}

/// The state in which [`list_educations`] starts.
pub open spec fn list_educations_op(resume_id: i32, user_id: Option<i32>) -> crate::operation::OpView {
    start(user_id, list_educations_plan(resume_id), Finish::Rows)
}

/// Lists the education entries of a resume that the caller may see (public, or owned by
/// the signed-in user), in display order.
pub fn list_educations(resume_id: i32, user_id: Option<i32>) -> (op: Operation)
    ensures
        op.wf(),
        op@ == list_educations_op(resume_id, user_id),
        guards_loads(op@.plan),
{
    let mut steps: Vec<Step> = Vec::new();
    steps.push(Step::Fetch { table: Table::Resumes, id: IdSource::Given(resume_id), in_resume: None, on_failure: OnFailure::Generic });
    steps.push(Step::RequireVisible { resume_step: 0, on_hidden: OnFailure::Generic });
    steps.push(Step::Load { table: Table::Education, parent: IdSource::Given(resume_id), on_failure: OnFailure::Generic });
    let ghost plan = steps@.map_values(|s: Step| s@);
    assert(plan[0] == steps@[0]@);
    assert(plan[1] == steps@[1]@);
    assert(plan[2] == steps@[2]@);
    assert(plan =~= list_educations_plan(resume_id));
    assert forall|w: int| 0 <= w < plan.len() && #[trigger] plan[w] is Load implies exists|k: int| 0 <= k < w && #[trigger] plan[k] is RequireVisible by {
        assert(plan[1] is RequireVisible);
    }
    Operation::new(user_id, steps, Finish::Rows)
}

/// Fetch the resume, check it is visible, fetch the education entry within it, load its key points.
pub open spec fn list_education_key_points_plan(resume_id: i32, education_id: i32) -> Seq<StepView> {
    seq![
        StepView::Fetch { table: Table::Resumes, id: IdSource::Given(resume_id), in_resume: None, on_failure: FailureRule::Generic },
        StepView::RequireVisible { resume_step: 0, on_hidden: FailureRule::Generic },
        StepView::Fetch { table: Table::Education, id: IdSource::Given(education_id), in_resume: Some(resume_id), on_failure: FailureRule::Generic },
        StepView::Load { table: Table::EducationKeyPoints, parent: IdSource::Given(education_id), on_failure: FailureRule::Generic },
    ]
}

/// The state in which [`list_education_key_points`] starts.
pub open spec fn list_education_key_points_op(resume_id: i32, education_id: i32, user_id: Option<i32>) -> crate::operation::OpView {
    start(user_id, list_education_key_points_plan(resume_id, education_id), Finish::Rows)
}

/// Lists the key points of a education entry of a resume that the caller may see, in
/// display order.
pub fn list_education_key_points(resume_id: i32, education_id: i32, user_id: Option<i32>) -> (op: Operation)
    ensures
        op.wf(),
        op@ == list_education_key_points_op(resume_id, education_id, user_id),
        guards_loads(op@.plan),
{
    let mut steps: Vec<Step> = Vec::new();
    steps.push(Step::Fetch { table: Table::Resumes, id: IdSource::Given(resume_id), in_resume: None, on_failure: OnFailure::Generic });
    steps.push(Step::RequireVisible { resume_step: 0, on_hidden: OnFailure::Generic });
    steps.push(Step::Fetch { table: Table::Education, id: IdSource::Given(education_id), in_resume: Some(resume_id), on_failure: OnFailure::Generic });
    steps.push(Step::Load { table: Table::EducationKeyPoints, parent: IdSource::Given(education_id), on_failure: OnFailure::Generic });
    let ghost plan = steps@.map_values(|s: Step| s@);
    assert(plan[0] == steps@[0]@);
    assert(plan[1] == steps@[1]@);
    assert(plan[2] == steps@[2]@);
    assert(plan[3] == steps@[3]@);
    assert(plan =~= list_education_key_points_plan(resume_id, education_id));
    assert forall|w: int| 0 <= w < plan.len() && #[trigger] plan[w] is Load implies exists|k: int| 0 <= k < w && #[trigger] plan[k] is RequireVisible by {
        assert(plan[1] is RequireVisible);
    }
    Operation::new(user_id, steps, Finish::Rows)
}

/// Fetch the resume, check ownership, insert the education entry.
pub open spec fn create_education_plan(resume_id: i32) -> Seq<StepView> {
    seq![
        StepView::Fetch { table: Table::Resumes, id: IdSource::Given(resume_id), in_resume: None, on_failure: FailureRule::Missing("Resume with id "@ + int_text(resume_id as int) + " not found"@) },
        StepView::RequireOwner { resume_step: 0 },
        StepView::Insert { table: Table::Education, on_failure: FailureRule::Internal },
    ]
}

/// The state in which [`create_education`] starts.
pub open spec fn create_education_op(user_id: i32, resume_id: i32) -> crate::operation::OpView {
    start(Some(user_id), create_education_plan(resume_id), Finish::Row)
}

/// Adds a education entry to a resume that the signed-in user owns; the result is the
/// inserted row.
pub fn create_education(user_id: i32, resume_id: i32) -> (op: Operation)
    ensures
        op.wf(),
        op@ == create_education_op(user_id, resume_id),
        guards_writes(op@.plan),
{
    let mut steps: Vec<Step> = Vec::new();
    steps.push(Step::Fetch { table: Table::Resumes, id: IdSource::Given(resume_id), in_resume: None, on_failure: OnFailure::Missing(message_with_id("Resume with id ", resume_id, " not found")) });
    steps.push(Step::RequireOwner { resume_step: 0 });
    steps.push(Step::Insert { table: Table::Education, on_failure: OnFailure::Internal });
    let ghost plan = steps@.map_values(|s: Step| s@);
    assert(plan[0] == steps@[0]@);
    assert(plan[1] == steps@[1]@);
    assert(plan[2] == steps@[2]@);
    assert(plan =~= create_education_plan(resume_id));
    assert forall|w: int| 0 <= w < plan.len() && is_write(#[trigger] plan[w]) implies exists|k: int| 0 <= k < w && #[trigger] plan[k] is RequireOwner by {
        assert(plan[1] is RequireOwner);
    }
    Operation::new(Some(user_id), steps, Finish::Row)
}

/// Fetch the resume, check ownership, fetch the education entry within the resume, insert the key point.
pub open spec fn create_education_key_point_plan(resume_id: i32, education_id: i32) -> Seq<StepView> {
    seq![
        StepView::Fetch { table: Table::Resumes, id: IdSource::Given(resume_id), in_resume: None, on_failure: FailureRule::Missing("Resume with id "@ + int_text(resume_id as int) + " not found"@) },
        StepView::RequireOwner { resume_step: 0 },
        StepView::Fetch { table: Table::Education, id: IdSource::Given(education_id), in_resume: Some(resume_id), on_failure: FailureRule::Missing("Education not found"@) },
        StepView::Insert { table: Table::EducationKeyPoints, on_failure: FailureRule::Internal },
    ]
}

/// The state in which [`create_education_key_point`] starts.
pub open spec fn create_education_key_point_op(user_id: i32, resume_id: i32, education_id: i32) -> crate::operation::OpView {
    start(Some(user_id), create_education_key_point_plan(resume_id, education_id), Finish::Row)
}

/// Adds a key point to a education entry of a resume that the signed-in user owns; the
/// result is the inserted row.
pub fn create_education_key_point(user_id: i32, resume_id: i32, education_id: i32) -> (op: Operation)
    ensures
        op.wf(),
        op@ == create_education_key_point_op(user_id, resume_id, education_id),
        guards_writes(op@.plan),
{
    let mut steps: Vec<Step> = Vec::new();
    steps.push(Step::Fetch { table: Table::Resumes, id: IdSource::Given(resume_id), in_resume: None, on_failure: OnFailure::Missing(message_with_id("Resume with id ", resume_id, " not found")) });
    steps.push(Step::RequireOwner { resume_step: 0 });
    steps.push(Step::Fetch { table: Table::Education, id: IdSource::Given(education_id), in_resume: Some(resume_id), on_failure: OnFailure::Missing(String::from_str("Education not found")) });
    steps.push(Step::Insert { table: Table::EducationKeyPoints, on_failure: OnFailure::Internal });
    let ghost plan = steps@.map_values(|s: Step| s@);
    assert(plan[0] == steps@[0]@);
    assert(plan[1] == steps@[1]@);
    assert(plan[2] == steps@[2]@);
    assert(plan[3] == steps@[3]@);
    assert(plan =~= create_education_key_point_plan(resume_id, education_id));
    assert forall|w: int| 0 <= w < plan.len() && is_write(#[trigger] plan[w]) implies exists|k: int| 0 <= k < w && #[trigger] plan[k] is RequireOwner by {
        assert(plan[1] is RequireOwner);
    }
    Operation::new(Some(user_id), steps, Finish::Row)
}

/// Fetch the education entry and its resume, check ownership, update the education entry.
pub open spec fn update_education_plan(education_id: i32) -> Seq<StepView> {
    seq![
        StepView::Fetch { table: Table::Education, id: IdSource::Given(education_id), in_resume: None, on_failure: FailureRule::Generic },
        StepView::Fetch { table: Table::Resumes, id: IdSource::ParentOf(0), in_resume: None, on_failure: FailureRule::Generic },
        StepView::RequireOwner { resume_step: 1 },
        StepView::Update { table: Table::Education, id: IdSource::Given(education_id), on_failure: FailureRule::Generic },
    ]
}

/// The state in which [`update_education`] starts.
pub open spec fn update_education_op(user_id: i32, education_id: i32) -> crate::operation::OpView {
    start(Some(user_id), update_education_plan(education_id), Finish::Row)
}

/// Changes a education entry of a resume that the signed-in user owns; the result is
/// the updated row.
pub fn update_education(user_id: i32, education_id: i32) -> (op: Operation)
    ensures
        op.wf(),
        op@ == update_education_op(user_id, education_id),
        guards_writes(op@.plan),
{
    let mut steps: Vec<Step> = Vec::new();
    steps.push(Step::Fetch { table: Table::Education, id: IdSource::Given(education_id), in_resume: None, on_failure: OnFailure::Generic });
    steps.push(Step::Fetch { table: Table::Resumes, id: IdSource::ParentOf(0), in_resume: None, on_failure: OnFailure::Generic });
    steps.push(Step::RequireOwner { resume_step: 1 });
    steps.push(Step::Update { table: Table::Education, id: IdSource::Given(education_id), on_failure: OnFailure::Generic });
    let ghost plan = steps@.map_values(|s: Step| s@);
    assert(plan[0] == steps@[0]@);
    assert(plan[1] == steps@[1]@);
    assert(plan[2] == steps@[2]@);
    assert(plan[3] == steps@[3]@);
    assert(plan =~= update_education_plan(education_id));
    assert forall|w: int| 0 <= w < plan.len() && is_write(#[trigger] plan[w]) implies exists|k: int| 0 <= k < w && #[trigger] plan[k] is RequireOwner by {
        assert(plan[2] is RequireOwner);
    }
    Operation::new(Some(user_id), steps, Finish::Row)
}

/// Fetch the key point, its education entry and their resume, check ownership, update the key point.
pub open spec fn update_education_key_point_plan(key_point_id: i32) -> Seq<StepView> {
    seq![
        StepView::Fetch { table: Table::EducationKeyPoints, id: IdSource::Given(key_point_id), in_resume: None, on_failure: FailureRule::Generic },
        StepView::Fetch { table: Table::Education, id: IdSource::ParentOf(0), in_resume: None, on_failure: FailureRule::Generic },
        StepView::Fetch { table: Table::Resumes, id: IdSource::ParentOf(1), in_resume: None, on_failure: FailureRule::Generic },
        StepView::RequireOwner { resume_step: 2 },
        StepView::Update { table: Table::EducationKeyPoints, id: IdSource::Given(key_point_id), on_failure: FailureRule::Generic },
    ]
}

/// The state in which [`update_education_key_point`] starts.
pub open spec fn update_education_key_point_op(user_id: i32, key_point_id: i32) -> crate::operation::OpView {
    start(Some(user_id), update_education_key_point_plan(key_point_id), Finish::RowAndParentOf(1))
}

/// Changes a key point of a resume that the signed-in user owns; the result is
/// the updated row and the id of the resume.
pub fn update_education_key_point(user_id: i32, key_point_id: i32) -> (op: Operation)
    ensures
        op.wf(),
        op@ == update_education_key_point_op(user_id, key_point_id),
        guards_writes(op@.plan),
{
    let mut steps: Vec<Step> = Vec::new();
    steps.push(Step::Fetch { table: Table::EducationKeyPoints, id: IdSource::Given(key_point_id), in_resume: None, on_failure: OnFailure::Generic });
    steps.push(Step::Fetch { table: Table::Education, id: IdSource::ParentOf(0), in_resume: None, on_failure: OnFailure::Generic });
    steps.push(Step::Fetch { table: Table::Resumes, id: IdSource::ParentOf(1), in_resume: None, on_failure: OnFailure::Generic });
    steps.push(Step::RequireOwner { resume_step: 2 });
    steps.push(Step::Update { table: Table::EducationKeyPoints, id: IdSource::Given(key_point_id), on_failure: OnFailure::Generic });
    let ghost plan = steps@.map_values(|s: Step| s@);
    assert(plan[0] == steps@[0]@);
    assert(plan[1] == steps@[1]@);
    assert(plan[2] == steps@[2]@);
    assert(plan[3] == steps@[3]@);
    assert(plan[4] == steps@[4]@);
    assert(plan =~= update_education_key_point_plan(key_point_id));
    assert forall|w: int| 0 <= w < plan.len() && is_write(#[trigger] plan[w]) implies exists|k: int| 0 <= k < w && #[trigger] plan[k] is RequireOwner by {
        assert(plan[3] is RequireOwner);
    }
    Operation::new(Some(user_id), steps, Finish::RowAndParentOf(1))
}

/// Fetch the education entry and its resume, check ownership, delete the education entry.
pub open spec fn delete_education_plan(education_id: i32) -> Seq<StepView> {
    seq![
        StepView::Fetch { table: Table::Education, id: IdSource::Given(education_id), in_resume: None, on_failure: FailureRule::Abort("Education with id "@ + int_text(education_id as int) + " not found"@) },
        StepView::Fetch { table: Table::Resumes, id: IdSource::ParentOf(0), in_resume: None, on_failure: FailureRule::Abort("Resume not found"@) },
        StepView::RequireOwner { resume_step: 1 },
        StepView::Delete { table: Table::Education, id: IdSource::Given(education_id), on_failure: FailureRule::Abort("Education with id "@ + int_text(education_id as int) + " not found"@), nothing_deleted: "Education with id "@ + int_text(education_id as int) + " not found"@ },
    ]
}

/// The state in which [`delete_education`] starts.
pub open spec fn delete_education_op(user_id: i32, education_id: i32) -> crate::operation::OpView {
    start(Some(user_id), delete_education_plan(education_id), Finish::Nothing)
}

/// Removes a education entry from a resume that the signed-in user owns; the service does not handle other database failures than missing rows.
pub fn delete_education(user_id: i32, education_id: i32) -> (op: Operation)
    ensures
        op.wf(),
        op@ == delete_education_op(user_id, education_id),
        guards_writes(op@.plan),
{
    let mut steps: Vec<Step> = Vec::new();
    steps.push(Step::Fetch { table: Table::Education, id: IdSource::Given(education_id), in_resume: None, on_failure: OnFailure::Abort(message_with_id("Education with id ", education_id, " not found")) });
    steps.push(Step::Fetch { table: Table::Resumes, id: IdSource::ParentOf(0), in_resume: None, on_failure: OnFailure::Abort(String::from_str("Resume not found")) });
    steps.push(Step::RequireOwner { resume_step: 1 });
    steps.push(Step::Delete { table: Table::Education, id: IdSource::Given(education_id), on_failure: OnFailure::Abort(message_with_id("Education with id ", education_id, " not found")), nothing_deleted: message_with_id("Education with id ", education_id, " not found") });
    let ghost plan = steps@.map_values(|s: Step| s@);
    assert(plan[0] == steps@[0]@);
    assert(plan[1] == steps@[1]@);
    assert(plan[2] == steps@[2]@);
    assert(plan[3] == steps@[3]@);
    assert(plan =~= delete_education_plan(education_id));
    assert forall|w: int| 0 <= w < plan.len() && is_write(#[trigger] plan[w]) implies exists|k: int| 0 <= k < w && #[trigger] plan[k] is RequireOwner by {
        assert(plan[2] is RequireOwner);
    }
    Operation::new(Some(user_id), steps, Finish::Nothing)
}

/// Fetch the key point, its education entry and their resume, check ownership, delete the key point.
pub open spec fn delete_education_key_point_plan(key_point_id: i32) -> Seq<StepView> {
    seq![
        StepView::Fetch { table: Table::EducationKeyPoints, id: IdSource::Given(key_point_id), in_resume: None, on_failure: FailureRule::Abort("Education key point with id "@ + int_text(key_point_id as int) + " not found"@) },
        StepView::Fetch { table: Table::Education, id: IdSource::ParentOf(0), in_resume: None, on_failure: FailureRule::Abort("Education not found"@) },
        StepView::Fetch { table: Table::Resumes, id: IdSource::ParentOf(1), in_resume: None, on_failure: FailureRule::Abort("Resume not found"@) },
        StepView::RequireOwner { resume_step: 2 },
        StepView::Delete { table: Table::EducationKeyPoints, id: IdSource::Given(key_point_id), on_failure: FailureRule::Abort("Education key point with id "@ + int_text(key_point_id as int) + " not found"@), nothing_deleted: "Education key point with id "@ + int_text(key_point_id as int) + " not found"@ },
    ]
}

/// The state in which [`delete_education_key_point`] starts.
pub open spec fn delete_education_key_point_op(user_id: i32, key_point_id: i32) -> crate::operation::OpView {
    start(Some(user_id), delete_education_key_point_plan(key_point_id), Finish::Nothing)
}

/// Removes a key point from a resume that the signed-in user owns; the service does not handle other database failures than missing rows.
pub fn delete_education_key_point(user_id: i32, key_point_id: i32) -> (op: Operation)
    ensures
        op.wf(),
        op@ == delete_education_key_point_op(user_id, key_point_id),
        guards_writes(op@.plan),
{
    let mut steps: Vec<Step> = Vec::new();
    steps.push(Step::Fetch { table: Table::EducationKeyPoints, id: IdSource::Given(key_point_id), in_resume: None, on_failure: OnFailure::Abort(message_with_id("Education key point with id ", key_point_id, " not found")) });
    steps.push(Step::Fetch { table: Table::Education, id: IdSource::ParentOf(0), in_resume: None, on_failure: OnFailure::Abort(String::from_str("Education not found")) });
    steps.push(Step::Fetch { table: Table::Resumes, id: IdSource::ParentOf(1), in_resume: None, on_failure: OnFailure::Abort(String::from_str("Resume not found")) });
    steps.push(Step::RequireOwner { resume_step: 2 });
    steps.push(Step::Delete { table: Table::EducationKeyPoints, id: IdSource::Given(key_point_id), on_failure: OnFailure::Abort(message_with_id("Education key point with id ", key_point_id, " not found")), nothing_deleted: message_with_id("Education key point with id ", key_point_id, " not found") });
    let ghost plan = steps@.map_values(|s: Step| s@);
    assert(plan[0] == steps@[0]@);
    assert(plan[1] == steps@[1]@);
    assert(plan[2] == steps@[2]@);
    assert(plan[3] == steps@[3]@);
    assert(plan[4] == steps@[4]@);
    assert(plan =~= delete_education_key_point_plan(key_point_id));
    assert forall|w: int| 0 <= w < plan.len() && is_write(#[trigger] plan[w]) implies exists|k: int| 0 <= k < w && #[trigger] plan[k] is RequireOwner by {
        assert(plan[3] is RequireOwner);
    }
    Operation::new(Some(user_id), steps, Finish::Nothing)
}
/// Listing: once the resume named by `resume_id` is found public or the caller's, the rows loaded are those whose parent is `resume_id`, and loading them finishes the request.
pub proof fn lemma_list_educations_loads_the_named_parent(resume_id: i32, user_id: Option<i32>, created_by: Option<i32>, is_public: bool)
    requires
        is_public || (user_id is Some && created_by == user_id),
    ensures
        crate::operation::request_of(list_educations_op(resume_id, user_id)) == Some(crate::operation::DbRequest::Fetch { table: crate::operation::Table::Resumes, id: resume_id, in_resume: None }),
        crate::operation::request_of(crate::operation::after_reply(list_educations_op(resume_id, user_id), crate::operation::ReplyView::Found(crate::operation::RowRef::Resume { created_by: created_by, is_public: is_public }))) == Some(crate::operation::DbRequest::Load { table: crate::operation::Table::Education, parent_id: resume_id }),
        crate::operation::after_reply(crate::operation::after_reply(list_educations_op(resume_id, user_id), crate::operation::ReplyView::Found(crate::operation::RowRef::Resume { created_by: created_by, is_public: is_public })), crate::operation::ReplyView::Loaded).result == Some(Ok::<crate::operation::Outcome, crate::error::AppErr>(crate::operation::Outcome::Rows)),
{
    reveal_with_fuel(crate::operation::settle, 4);
}

/// Listing: once the resume named by `resume_id` is found public or the caller's, and `education_id` is found among its rows, the rows loaded are those whose parent is `education_id`, and loading them finishes the request.
pub proof fn lemma_list_education_key_points_loads_the_named_parent(resume_id: i32, education_id: i32, user_id: Option<i32>, created_by: Option<i32>, is_public: bool)
    requires
        is_public || (user_id is Some && created_by == user_id),
    ensures
        crate::operation::request_of(list_education_key_points_op(resume_id, education_id, user_id)) == Some(crate::operation::DbRequest::Fetch { table: crate::operation::Table::Resumes, id: resume_id, in_resume: None }),
        crate::operation::request_of(crate::operation::after_reply(list_education_key_points_op(resume_id, education_id, user_id), crate::operation::ReplyView::Found(crate::operation::RowRef::Resume { created_by: created_by, is_public: is_public }))) == Some(crate::operation::DbRequest::Fetch { table: crate::operation::Table::Education, id: education_id, in_resume: Some(resume_id) }),
        crate::operation::request_of(crate::operation::after_reply(crate::operation::after_reply(list_education_key_points_op(resume_id, education_id, user_id), crate::operation::ReplyView::Found(crate::operation::RowRef::Resume { created_by: created_by, is_public: is_public })), crate::operation::ReplyView::Found(crate::operation::RowRef::Child { parent: resume_id }))) == Some(crate::operation::DbRequest::Load { table: crate::operation::Table::EducationKeyPoints, parent_id: education_id }),
        crate::operation::after_reply(crate::operation::after_reply(crate::operation::after_reply(list_education_key_points_op(resume_id, education_id, user_id), crate::operation::ReplyView::Found(crate::operation::RowRef::Resume { created_by: created_by, is_public: is_public })), crate::operation::ReplyView::Found(crate::operation::RowRef::Child { parent: resume_id })), crate::operation::ReplyView::Loaded).result == Some(Ok::<crate::operation::Outcome, crate::error::AppErr>(crate::operation::Outcome::Rows)),
{
    reveal_with_fuel(crate::operation::settle, 4);
}

/// Adding a education: the resume named by `resume_id` is fetched; only then is the insert requested, and a successful insert finishes the request.
pub proof fn lemma_create_education_inserts_into_the_named_resume(user_id: i32, resume_id: i32, is_public: bool)
    ensures
        crate::operation::request_of(create_education_op(user_id, resume_id)) == Some(crate::operation::DbRequest::Fetch { table: crate::operation::Table::Resumes, id: resume_id, in_resume: None }),
        crate::operation::request_of(crate::operation::after_reply(create_education_op(user_id, resume_id), crate::operation::ReplyView::Found(crate::operation::RowRef::Resume { created_by: Some(user_id), is_public: is_public }))) == Some(crate::operation::DbRequest::Insert { table: crate::operation::Table::Education }),
        crate::operation::after_reply(crate::operation::after_reply(create_education_op(user_id, resume_id), crate::operation::ReplyView::Found(crate::operation::RowRef::Resume { created_by: Some(user_id), is_public: is_public })), crate::operation::ReplyView::Written).result == Some(Ok::<crate::operation::Outcome, crate::error::AppErr>(crate::operation::Outcome::Row)),
{
    reveal_with_fuel(crate::operation::settle, 4);
}

/// Adding a education key point: the resume named by `resume_id` is fetched, and once it is the caller's, the Education row `education_id` of that same resume; only then is the insert requested, and a successful insert finishes the request.
pub proof fn lemma_create_education_key_point_inserts_into_the_named_resume(user_id: i32, resume_id: i32, education_id: i32, is_public: bool)
    ensures
        crate::operation::request_of(create_education_key_point_op(user_id, resume_id, education_id)) == Some(crate::operation::DbRequest::Fetch { table: crate::operation::Table::Resumes, id: resume_id, in_resume: None }),
        crate::operation::request_of(crate::operation::after_reply(create_education_key_point_op(user_id, resume_id, education_id), crate::operation::ReplyView::Found(crate::operation::RowRef::Resume { created_by: Some(user_id), is_public: is_public }))) == Some(crate::operation::DbRequest::Fetch { table: crate::operation::Table::Education, id: education_id, in_resume: Some(resume_id) }),
        crate::operation::request_of(crate::operation::after_reply(crate::operation::after_reply(create_education_key_point_op(user_id, resume_id, education_id), crate::operation::ReplyView::Found(crate::operation::RowRef::Resume { created_by: Some(user_id), is_public: is_public })), crate::operation::ReplyView::Found(crate::operation::RowRef::Child { parent: resume_id }))) == Some(crate::operation::DbRequest::Insert { table: crate::operation::Table::EducationKeyPoints }),
        crate::operation::after_reply(crate::operation::after_reply(crate::operation::after_reply(create_education_key_point_op(user_id, resume_id, education_id), crate::operation::ReplyView::Found(crate::operation::RowRef::Resume { created_by: Some(user_id), is_public: is_public })), crate::operation::ReplyView::Found(crate::operation::RowRef::Child { parent: resume_id })), crate::operation::ReplyView::Written).result == Some(Ok::<crate::operation::Outcome, crate::error::AppErr>(crate::operation::Outcome::Row)),
{
    reveal_with_fuel(crate::operation::settle, 4);
}

/// Updating a education: the education named by `education_id` is fetched, then the resume it belongs to; once that resume is found to be the caller's, the update is requested for exactly `education_id`, and a successful write finishes the request.
pub proof fn lemma_update_education_acts_on_the_named_row(user_id: i32, education_id: i32, resume_id: i32, is_public: bool)
    ensures
        crate::operation::request_of(update_education_op(user_id, education_id)) == Some(crate::operation::DbRequest::Fetch { table: crate::operation::Table::Education, id: education_id, in_resume: None }),
        crate::operation::request_of(crate::operation::after_reply(update_education_op(user_id, education_id), crate::operation::ReplyView::Found(crate::operation::RowRef::Child { parent: resume_id }))) == Some(crate::operation::DbRequest::Fetch { table: crate::operation::Table::Resumes, id: resume_id, in_resume: None }),
        crate::operation::request_of(crate::operation::after_reply(crate::operation::after_reply(update_education_op(user_id, education_id), crate::operation::ReplyView::Found(crate::operation::RowRef::Child { parent: resume_id })), crate::operation::ReplyView::Found(crate::operation::RowRef::Resume { created_by: Some(user_id), is_public: is_public }))) == Some(crate::operation::DbRequest::Update { table: crate::operation::Table::Education, id: education_id }),
        crate::operation::after_reply(crate::operation::after_reply(crate::operation::after_reply(update_education_op(user_id, education_id), crate::operation::ReplyView::Found(crate::operation::RowRef::Child { parent: resume_id })), crate::operation::ReplyView::Found(crate::operation::RowRef::Resume { created_by: Some(user_id), is_public: is_public })), crate::operation::ReplyView::Written).result == Some(Ok::<crate::operation::Outcome, crate::error::AppErr>(crate::operation::Outcome::Row)),
{
    reveal_with_fuel(crate::operation::settle, 4);
}

/// Updating a education key point: the education key point named by `key_point_id` is fetched, then the resume it belongs to; once that resume is found to be the caller's, the update is requested for exactly `key_point_id`, and a successful write finishes the request.
pub proof fn lemma_update_education_key_point_acts_on_the_named_row(user_id: i32, key_point_id: i32, parent_id: i32, resume_id: i32, is_public: bool)
    ensures
        crate::operation::request_of(update_education_key_point_op(user_id, key_point_id)) == Some(crate::operation::DbRequest::Fetch { table: crate::operation::Table::EducationKeyPoints, id: key_point_id, in_resume: None }),
        crate::operation::request_of(crate::operation::after_reply(update_education_key_point_op(user_id, key_point_id), crate::operation::ReplyView::Found(crate::operation::RowRef::Child { parent: parent_id }))) == Some(crate::operation::DbRequest::Fetch { table: crate::operation::Table::Education, id: parent_id, in_resume: None }),
        crate::operation::request_of(crate::operation::after_reply(crate::operation::after_reply(update_education_key_point_op(user_id, key_point_id), crate::operation::ReplyView::Found(crate::operation::RowRef::Child { parent: parent_id })), crate::operation::ReplyView::Found(crate::operation::RowRef::Child { parent: resume_id }))) == Some(crate::operation::DbRequest::Fetch { table: crate::operation::Table::Resumes, id: resume_id, in_resume: None }),
        crate::operation::request_of(crate::operation::after_reply(crate::operation::after_reply(crate::operation::after_reply(update_education_key_point_op(user_id, key_point_id), crate::operation::ReplyView::Found(crate::operation::RowRef::Child { parent: parent_id })), crate::operation::ReplyView::Found(crate::operation::RowRef::Child { parent: resume_id })), crate::operation::ReplyView::Found(crate::operation::RowRef::Resume { created_by: Some(user_id), is_public: is_public }))) == Some(crate::operation::DbRequest::Update { table: crate::operation::Table::EducationKeyPoints, id: key_point_id }),
        crate::operation::after_reply(crate::operation::after_reply(crate::operation::after_reply(crate::operation::after_reply(update_education_key_point_op(user_id, key_point_id), crate::operation::ReplyView::Found(crate::operation::RowRef::Child { parent: parent_id })), crate::operation::ReplyView::Found(crate::operation::RowRef::Child { parent: resume_id })), crate::operation::ReplyView::Found(crate::operation::RowRef::Resume { created_by: Some(user_id), is_public: is_public })), crate::operation::ReplyView::Written).result == Some(Ok::<crate::operation::Outcome, crate::error::AppErr>(crate::operation::Outcome::RowAndResumeId(resume_id))),
{
    reveal_with_fuel(crate::operation::settle, 4);
}

/// Deleting a education: the education named by `education_id` is fetched, then the resume it belongs to; once that resume is found to be the caller's, the delete is requested for exactly `education_id`, and removing a row finishes the request.
pub proof fn lemma_delete_education_acts_on_the_named_row(user_id: i32, education_id: i32, resume_id: i32, is_public: bool, deleted: u64)
    requires
        deleted > 0,
    ensures
        crate::operation::request_of(delete_education_op(user_id, education_id)) == Some(crate::operation::DbRequest::Fetch { table: crate::operation::Table::Education, id: education_id, in_resume: None }),
        crate::operation::request_of(crate::operation::after_reply(delete_education_op(user_id, education_id), crate::operation::ReplyView::Found(crate::operation::RowRef::Child { parent: resume_id }))) == Some(crate::operation::DbRequest::Fetch { table: crate::operation::Table::Resumes, id: resume_id, in_resume: None }),
        crate::operation::request_of(crate::operation::after_reply(crate::operation::after_reply(delete_education_op(user_id, education_id), crate::operation::ReplyView::Found(crate::operation::RowRef::Child { parent: resume_id })), crate::operation::ReplyView::Found(crate::operation::RowRef::Resume { created_by: Some(user_id), is_public: is_public }))) == Some(crate::operation::DbRequest::Delete { table: crate::operation::Table::Education, id: education_id }),
        crate::operation::after_reply(crate::operation::after_reply(crate::operation::after_reply(delete_education_op(user_id, education_id), crate::operation::ReplyView::Found(crate::operation::RowRef::Child { parent: resume_id })), crate::operation::ReplyView::Found(crate::operation::RowRef::Resume { created_by: Some(user_id), is_public: is_public })), crate::operation::ReplyView::Deleted(deleted)).result == Some(Ok::<crate::operation::Outcome, crate::error::AppErr>(crate::operation::Outcome::Nothing)),
{
    reveal_with_fuel(crate::operation::settle, 4);
}

/// Deleting a education key point: the education key point named by `key_point_id` is fetched, then the resume it belongs to; once that resume is found to be the caller's, the delete is requested for exactly `key_point_id`, and removing a row finishes the request.
pub proof fn lemma_delete_education_key_point_acts_on_the_named_row(user_id: i32, key_point_id: i32, parent_id: i32, resume_id: i32, is_public: bool, deleted: u64)
    requires
        deleted > 0,
    ensures
        crate::operation::request_of(delete_education_key_point_op(user_id, key_point_id)) == Some(crate::operation::DbRequest::Fetch { table: crate::operation::Table::EducationKeyPoints, id: key_point_id, in_resume: None }),
        crate::operation::request_of(crate::operation::after_reply(delete_education_key_point_op(user_id, key_point_id), crate::operation::ReplyView::Found(crate::operation::RowRef::Child { parent: parent_id }))) == Some(crate::operation::DbRequest::Fetch { table: crate::operation::Table::Education, id: parent_id, in_resume: None }),
        crate::operation::request_of(crate::operation::after_reply(crate::operation::after_reply(delete_education_key_point_op(user_id, key_point_id), crate::operation::ReplyView::Found(crate::operation::RowRef::Child { parent: parent_id })), crate::operation::ReplyView::Found(crate::operation::RowRef::Child { parent: resume_id }))) == Some(crate::operation::DbRequest::Fetch { table: crate::operation::Table::Resumes, id: resume_id, in_resume: None }),
        crate::operation::request_of(crate::operation::after_reply(crate::operation::after_reply(crate::operation::after_reply(delete_education_key_point_op(user_id, key_point_id), crate::operation::ReplyView::Found(crate::operation::RowRef::Child { parent: parent_id })), crate::operation::ReplyView::Found(crate::operation::RowRef::Child { parent: resume_id })), crate::operation::ReplyView::Found(crate::operation::RowRef::Resume { created_by: Some(user_id), is_public: is_public }))) == Some(crate::operation::DbRequest::Delete { table: crate::operation::Table::EducationKeyPoints, id: key_point_id }),
        crate::operation::after_reply(crate::operation::after_reply(crate::operation::after_reply(crate::operation::after_reply(delete_education_key_point_op(user_id, key_point_id), crate::operation::ReplyView::Found(crate::operation::RowRef::Child { parent: parent_id })), crate::operation::ReplyView::Found(crate::operation::RowRef::Child { parent: resume_id })), crate::operation::ReplyView::Found(crate::operation::RowRef::Resume { created_by: Some(user_id), is_public: is_public })), crate::operation::ReplyView::Deleted(deleted)).result == Some(Ok::<crate::operation::Outcome, crate::error::AppErr>(crate::operation::Outcome::Nothing)),
{
    reveal_with_fuel(crate::operation::settle, 4);
}

} // verus!
