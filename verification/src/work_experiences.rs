use vstd::prelude::*;
use crate::operation::{
    guards_loads, guards_writes, is_write, start, FailureRule, Finish, IdSource, OnFailure, Operation, Step,
    StepView, Table,
};
use crate::models::{NewWorkExperience, NewWorkExperienceKeyPoint, NewWorkExperienceKeyPointRequest, NewWorkExperienceRequest, UpdateWorkExperience};
use crate::text::{
    int_text, message_with_id, normalize_optional_string_change, normalize_optional_text,
    normalized_text, option_text, trim_to_string, trimmed,
};

verus! {

/// The row that adding a work experience key point to work experience `work_experience_id` inserts: the
/// request's fields, under that work experience.
pub fn new_work_experience_key_point(work_experience_id: i32, payload: NewWorkExperienceKeyPointRequest) -> (row: NewWorkExperienceKeyPoint)
    ensures
        row.work_experience_id == work_experience_id,
        row.key_point == payload.key_point,
        row.display_order == payload.display_order,
{
    NewWorkExperienceKeyPoint {
        work_experience_id,
        key_point: payload.key_point,
        display_order: payload.display_order,
    }
}


/// Fetch the resume, check it is visible, load its work experiences.
pub open spec fn list_work_experiences_plan(resume_id: i32) -> Seq<StepView> {
    seq![
        StepView::Fetch { table: Table::Resumes, id: IdSource::Given(resume_id), in_resume: None, on_failure: FailureRule::Generic },
        StepView::RequireVisible { resume_step: 0, on_hidden: FailureRule::Generic },
        StepView::Load { table: Table::WorkExperiences, parent: IdSource::Given(resume_id), on_failure: FailureRule::Generic },
    ]
}

/// The state in which [`list_work_experiences`] starts.
pub open spec fn list_work_experiences_op(resume_id: i32, user_id: Option<i32>) -> crate::operation::OpView {
    start(user_id, list_work_experiences_plan(resume_id), Finish::Rows)
}

/// Lists the work experiences of a resume that the caller may see (public, or owned by
/// the signed-in user), in display order.
pub fn list_work_experiences(resume_id: i32, user_id: Option<i32>) -> (op: Operation)
    ensures
        op.wf(),
        op@ == list_work_experiences_op(resume_id, user_id),
        guards_loads(op@.plan),
{
    let mut steps: Vec<Step> = Vec::new();
    steps.push(Step::Fetch { table: Table::Resumes, id: IdSource::Given(resume_id), in_resume: None, on_failure: OnFailure::Generic });
    steps.push(Step::RequireVisible { resume_step: 0, on_hidden: OnFailure::Generic });
    steps.push(Step::Load { table: Table::WorkExperiences, parent: IdSource::Given(resume_id), on_failure: OnFailure::Generic });
    let ghost plan = steps@.map_values(|s: Step| s@);
    assert(plan[0] == steps@[0]@);
    assert(plan[1] == steps@[1]@);
    assert(plan[2] == steps@[2]@);
    assert(plan =~= list_work_experiences_plan(resume_id));
    assert forall|w: int| 0 <= w < plan.len() && #[trigger] plan[w] is Load implies exists|k: int| 0 <= k < w && #[trigger] plan[k] is RequireVisible by {
        assert(plan[1] is RequireVisible);
    }
    Operation::new(user_id, steps, Finish::Rows)
}

/// Fetch the resume, check it is visible, fetch the work experience within it, load its key points.
pub open spec fn list_work_experience_key_points_plan(resume_id: i32, work_id: i32) -> Seq<StepView> {
    seq![
        StepView::Fetch { table: Table::Resumes, id: IdSource::Given(resume_id), in_resume: None, on_failure: FailureRule::Generic },
        StepView::RequireVisible { resume_step: 0, on_hidden: FailureRule::Generic },
        StepView::Fetch { table: Table::WorkExperiences, id: IdSource::Given(work_id), in_resume: Some(resume_id), on_failure: FailureRule::MissingElseGeneric("Work experience not found"@) },
        StepView::Load { table: Table::WorkExperienceKeyPoints, parent: IdSource::Given(work_id), on_failure: FailureRule::Generic },
    ]
}

/// The state in which [`list_work_experience_key_points`] starts.
pub open spec fn list_work_experience_key_points_op(resume_id: i32, work_id: i32, user_id: Option<i32>) -> crate::operation::OpView {
    start(user_id, list_work_experience_key_points_plan(resume_id, work_id), Finish::Rows)
}

/// Lists the key points of a work experience of a resume that the caller may see, in
/// display order.
pub fn list_work_experience_key_points(resume_id: i32, work_id: i32, user_id: Option<i32>) -> (op: Operation)
    ensures
        op.wf(),
        op@ == list_work_experience_key_points_op(resume_id, work_id, user_id),
        guards_loads(op@.plan),
{
    let mut steps: Vec<Step> = Vec::new();
    steps.push(Step::Fetch { table: Table::Resumes, id: IdSource::Given(resume_id), in_resume: None, on_failure: OnFailure::Generic });
    steps.push(Step::RequireVisible { resume_step: 0, on_hidden: OnFailure::Generic });
    steps.push(Step::Fetch { table: Table::WorkExperiences, id: IdSource::Given(work_id), in_resume: Some(resume_id), on_failure: OnFailure::MissingElseGeneric(String::from_str("Work experience not found")) });
    steps.push(Step::Load { table: Table::WorkExperienceKeyPoints, parent: IdSource::Given(work_id), on_failure: OnFailure::Generic });
    let ghost plan = steps@.map_values(|s: Step| s@);
    assert(plan[0] == steps@[0]@);
    assert(plan[1] == steps@[1]@);
    assert(plan[2] == steps@[2]@);
    assert(plan[3] == steps@[3]@);
    assert(plan =~= list_work_experience_key_points_plan(resume_id, work_id));
    assert forall|w: int| 0 <= w < plan.len() && #[trigger] plan[w] is Load implies exists|k: int| 0 <= k < w && #[trigger] plan[k] is RequireVisible by {
        assert(plan[1] is RequireVisible);
    }
    Operation::new(user_id, steps, Finish::Rows)
}

/// Fetch the resume, check ownership, insert the work experience.
pub open spec fn create_work_experience_plan(resume_id: i32) -> Seq<StepView> {
    seq![
        StepView::Fetch { table: Table::Resumes, id: IdSource::Given(resume_id), in_resume: None, on_failure: FailureRule::Generic },
        StepView::RequireOwner { resume_step: 0 },
        StepView::Insert { table: Table::WorkExperiences, on_failure: FailureRule::Generic },
    ]
}

/// The state in which [`create_work_experience`] starts.
pub open spec fn create_work_experience_op(user_id: i32, resume_id: i32) -> crate::operation::OpView {
    start(Some(user_id), create_work_experience_plan(resume_id), Finish::Row)
}

/// Adds a work experience to a resume that the signed-in user owns; the result is the
/// inserted row.
pub fn create_work_experience(user_id: i32, resume_id: i32) -> (op: Operation)
    ensures
        op.wf(),
        op@ == create_work_experience_op(user_id, resume_id),
        guards_writes(op@.plan),
{
    let mut steps: Vec<Step> = Vec::new();
    steps.push(Step::Fetch { table: Table::Resumes, id: IdSource::Given(resume_id), in_resume: None, on_failure: OnFailure::Generic });
    steps.push(Step::RequireOwner { resume_step: 0 });
    steps.push(Step::Insert { table: Table::WorkExperiences, on_failure: OnFailure::Generic });
    let ghost plan = steps@.map_values(|s: Step| s@);
    assert(plan[0] == steps@[0]@);
    assert(plan[1] == steps@[1]@);
    assert(plan[2] == steps@[2]@);
    assert(plan =~= create_work_experience_plan(resume_id));
    assert forall|w: int| 0 <= w < plan.len() && is_write(#[trigger] plan[w]) implies exists|k: int| 0 <= k < w && #[trigger] plan[k] is RequireOwner by {
        assert(plan[1] is RequireOwner);
    }
    Operation::new(Some(user_id), steps, Finish::Row)
}

/// Fetch the resume, check ownership, fetch the work experience within the resume, insert the key point.
pub open spec fn create_work_experience_key_point_plan(resume_id: i32, work_id: i32) -> Seq<StepView> {
    seq![
        StepView::Fetch { table: Table::Resumes, id: IdSource::Given(resume_id), in_resume: None, on_failure: FailureRule::Generic },
        StepView::RequireOwner { resume_step: 0 },
        StepView::Fetch { table: Table::WorkExperiences, id: IdSource::Given(work_id), in_resume: Some(resume_id), on_failure: FailureRule::Generic },
        StepView::Insert { table: Table::WorkExperienceKeyPoints, on_failure: FailureRule::Generic },
    ]
}

/// The state in which [`create_work_experience_key_point`] starts.
pub open spec fn create_work_experience_key_point_op(user_id: i32, resume_id: i32, work_id: i32) -> crate::operation::OpView {
    start(Some(user_id), create_work_experience_key_point_plan(resume_id, work_id), Finish::Row)
}

/// Adds a key point to a work experience of a resume that the signed-in user owns; the
/// result is the inserted row.
pub fn create_work_experience_key_point(user_id: i32, resume_id: i32, work_id: i32) -> (op: Operation)
    ensures
        op.wf(),
        op@ == create_work_experience_key_point_op(user_id, resume_id, work_id),
        guards_writes(op@.plan),
{
    let mut steps: Vec<Step> = Vec::new();
    steps.push(Step::Fetch { table: Table::Resumes, id: IdSource::Given(resume_id), in_resume: None, on_failure: OnFailure::Generic });
    steps.push(Step::RequireOwner { resume_step: 0 });
    steps.push(Step::Fetch { table: Table::WorkExperiences, id: IdSource::Given(work_id), in_resume: Some(resume_id), on_failure: OnFailure::Generic });
    steps.push(Step::Insert { table: Table::WorkExperienceKeyPoints, on_failure: OnFailure::Generic });
    let ghost plan = steps@.map_values(|s: Step| s@);
    assert(plan[0] == steps@[0]@);
    assert(plan[1] == steps@[1]@);
    assert(plan[2] == steps@[2]@);
    assert(plan[3] == steps@[3]@);
    assert(plan =~= create_work_experience_key_point_plan(resume_id, work_id));
    assert forall|w: int| 0 <= w < plan.len() && is_write(#[trigger] plan[w]) implies exists|k: int| 0 <= k < w && #[trigger] plan[k] is RequireOwner by {
        assert(plan[1] is RequireOwner);
    }
    Operation::new(Some(user_id), steps, Finish::Row)
}

/// Fetch the work experience and its resume, check ownership, update the work experience.
pub open spec fn update_work_experience_plan(work_id: i32) -> Seq<StepView> {
    seq![
        StepView::Fetch { table: Table::WorkExperiences, id: IdSource::Given(work_id), in_resume: None, on_failure: FailureRule::Generic },
        StepView::Fetch { table: Table::Resumes, id: IdSource::ParentOf(0), in_resume: None, on_failure: FailureRule::Generic },
        StepView::RequireOwner { resume_step: 1 },
        StepView::Update { table: Table::WorkExperiences, id: IdSource::Given(work_id), on_failure: FailureRule::Generic },
    ]
}

/// The state in which [`update_work_experience`] starts.
pub open spec fn update_work_experience_op(user_id: i32, work_id: i32) -> crate::operation::OpView {
    start(Some(user_id), update_work_experience_plan(work_id), Finish::Row)
}

/// Changes a work experience of a resume that the signed-in user owns; the result is
/// the updated row.
pub fn update_work_experience(user_id: i32, work_id: i32) -> (op: Operation)
    ensures
        op.wf(),
        op@ == update_work_experience_op(user_id, work_id),
        guards_writes(op@.plan),
{
    let mut steps: Vec<Step> = Vec::new();
    steps.push(Step::Fetch { table: Table::WorkExperiences, id: IdSource::Given(work_id), in_resume: None, on_failure: OnFailure::Generic });
    steps.push(Step::Fetch { table: Table::Resumes, id: IdSource::ParentOf(0), in_resume: None, on_failure: OnFailure::Generic });
    steps.push(Step::RequireOwner { resume_step: 1 });
    steps.push(Step::Update { table: Table::WorkExperiences, id: IdSource::Given(work_id), on_failure: OnFailure::Generic });
    let ghost plan = steps@.map_values(|s: Step| s@);
    assert(plan[0] == steps@[0]@);
    assert(plan[1] == steps@[1]@);
    assert(plan[2] == steps@[2]@);
    assert(plan[3] == steps@[3]@);
    assert(plan =~= update_work_experience_plan(work_id));
    assert forall|w: int| 0 <= w < plan.len() && is_write(#[trigger] plan[w]) implies exists|k: int| 0 <= k < w && #[trigger] plan[k] is RequireOwner by {
        assert(plan[2] is RequireOwner);
    }
    Operation::new(Some(user_id), steps, Finish::Row)
}

/// Fetch the key point, its work experience and their resume, check ownership, update the key point.
pub open spec fn update_work_experience_key_point_plan(kp_id: i32) -> Seq<StepView> {
    seq![
        StepView::Fetch { table: Table::WorkExperienceKeyPoints, id: IdSource::Given(kp_id), in_resume: None, on_failure: FailureRule::Generic },
        StepView::Fetch { table: Table::WorkExperiences, id: IdSource::ParentOf(0), in_resume: None, on_failure: FailureRule::Generic },
        StepView::Fetch { table: Table::Resumes, id: IdSource::ParentOf(1), in_resume: None, on_failure: FailureRule::Generic },
        StepView::RequireOwner { resume_step: 2 },
        StepView::Update { table: Table::WorkExperienceKeyPoints, id: IdSource::Given(kp_id), on_failure: FailureRule::Generic },
    ]
}

/// The state in which [`update_work_experience_key_point`] starts.
pub open spec fn update_work_experience_key_point_op(user_id: i32, kp_id: i32) -> crate::operation::OpView {
    start(Some(user_id), update_work_experience_key_point_plan(kp_id), Finish::RowAndParentOf(1))
}

/// Changes a key point of a resume that the signed-in user owns; the result is
/// the updated row and the id of the resume.
pub fn update_work_experience_key_point(user_id: i32, kp_id: i32) -> (op: Operation)
    ensures
        op.wf(),
        op@ == update_work_experience_key_point_op(user_id, kp_id),
        guards_writes(op@.plan),
{
    let mut steps: Vec<Step> = Vec::new();
    steps.push(Step::Fetch { table: Table::WorkExperienceKeyPoints, id: IdSource::Given(kp_id), in_resume: None, on_failure: OnFailure::Generic });
    steps.push(Step::Fetch { table: Table::WorkExperiences, id: IdSource::ParentOf(0), in_resume: None, on_failure: OnFailure::Generic });
    steps.push(Step::Fetch { table: Table::Resumes, id: IdSource::ParentOf(1), in_resume: None, on_failure: OnFailure::Generic });
    steps.push(Step::RequireOwner { resume_step: 2 });
    steps.push(Step::Update { table: Table::WorkExperienceKeyPoints, id: IdSource::Given(kp_id), on_failure: OnFailure::Generic });
    let ghost plan = steps@.map_values(|s: Step| s@);
    assert(plan[0] == steps@[0]@);
    assert(plan[1] == steps@[1]@);
    assert(plan[2] == steps@[2]@);
    assert(plan[3] == steps@[3]@);
    assert(plan[4] == steps@[4]@);
    assert(plan =~= update_work_experience_key_point_plan(kp_id));
    assert forall|w: int| 0 <= w < plan.len() && is_write(#[trigger] plan[w]) implies exists|k: int| 0 <= k < w && #[trigger] plan[k] is RequireOwner by {
        assert(plan[3] is RequireOwner);
    }
    Operation::new(Some(user_id), steps, Finish::RowAndParentOf(1))
}

/// Fetch the work experience and its resume, check ownership, delete the work experience.
pub open spec fn delete_work_experience_plan(work_id: i32) -> Seq<StepView> {
    seq![
        StepView::Fetch { table: Table::WorkExperiences, id: IdSource::Given(work_id), in_resume: None, on_failure: FailureRule::Missing("Work experience with id "@ + int_text(work_id as int) + " not found"@) },
        StepView::Fetch { table: Table::Resumes, id: IdSource::ParentOf(0), in_resume: None, on_failure: FailureRule::Missing("Resume not found"@) },
        StepView::RequireOwner { resume_step: 1 },
        StepView::Delete { table: Table::WorkExperiences, id: IdSource::Given(work_id), on_failure: FailureRule::Internal, nothing_deleted: "Work experience with id "@ + int_text(work_id as int) + " not found"@ },
    ]
}

/// The state in which [`delete_work_experience`] starts.
pub open spec fn delete_work_experience_op(user_id: i32, work_id: i32) -> crate::operation::OpView {
    start(Some(user_id), delete_work_experience_plan(work_id), Finish::ParentOf(0))
}

/// Removes a work experience from a resume that the signed-in user owns; the result is the id of the resume.
pub fn delete_work_experience(user_id: i32, work_id: i32) -> (op: Operation)
    ensures
        op.wf(),
        op@ == delete_work_experience_op(user_id, work_id),
        guards_writes(op@.plan),
{
    let mut steps: Vec<Step> = Vec::new();
    steps.push(Step::Fetch { table: Table::WorkExperiences, id: IdSource::Given(work_id), in_resume: None, on_failure: OnFailure::Missing(message_with_id("Work experience with id ", work_id, " not found")) });
    steps.push(Step::Fetch { table: Table::Resumes, id: IdSource::ParentOf(0), in_resume: None, on_failure: OnFailure::Missing(String::from_str("Resume not found")) });
    steps.push(Step::RequireOwner { resume_step: 1 });
    steps.push(Step::Delete { table: Table::WorkExperiences, id: IdSource::Given(work_id), on_failure: OnFailure::Internal, nothing_deleted: message_with_id("Work experience with id ", work_id, " not found") });
    let ghost plan = steps@.map_values(|s: Step| s@);
    assert(plan[0] == steps@[0]@);
    assert(plan[1] == steps@[1]@);
    assert(plan[2] == steps@[2]@);
    assert(plan[3] == steps@[3]@);
    assert(plan =~= delete_work_experience_plan(work_id));
    assert forall|w: int| 0 <= w < plan.len() && is_write(#[trigger] plan[w]) implies exists|k: int| 0 <= k < w && #[trigger] plan[k] is RequireOwner by {
        assert(plan[2] is RequireOwner);
    }
    Operation::new(Some(user_id), steps, Finish::ParentOf(0))
}

/// Fetch the key point, its work experience and their resume, check ownership, delete the key point.
pub open spec fn delete_work_experience_key_point_plan(kp_id: i32) -> Seq<StepView> {
    seq![
        StepView::Fetch { table: Table::WorkExperienceKeyPoints, id: IdSource::Given(kp_id), in_resume: None, on_failure: FailureRule::Missing("Work experience key point with id "@ + int_text(kp_id as int) + " not found"@) },
        StepView::Fetch { table: Table::WorkExperiences, id: IdSource::ParentOf(0), in_resume: None, on_failure: FailureRule::Missing("Work experience not found"@) },
        StepView::Fetch { table: Table::Resumes, id: IdSource::ParentOf(1), in_resume: None, on_failure: FailureRule::Missing("Resume not found"@) },
        StepView::RequireOwner { resume_step: 2 },
        StepView::Delete { table: Table::WorkExperienceKeyPoints, id: IdSource::Given(kp_id), on_failure: FailureRule::Internal, nothing_deleted: "Work experience key point with id "@ + int_text(kp_id as int) + " not found"@ },
    ]
}

/// The state in which [`delete_work_experience_key_point`] starts.
pub open spec fn delete_work_experience_key_point_op(user_id: i32, kp_id: i32) -> crate::operation::OpView {
    start(Some(user_id), delete_work_experience_key_point_plan(kp_id), Finish::ParentOf(1))
}

/// Removes a key point from a resume that the signed-in user owns; the result is the id of the resume.
pub fn delete_work_experience_key_point(user_id: i32, kp_id: i32) -> (op: Operation)
    ensures
        op.wf(),
        op@ == delete_work_experience_key_point_op(user_id, kp_id),
        guards_writes(op@.plan),
{
    let mut steps: Vec<Step> = Vec::new();
    steps.push(Step::Fetch { table: Table::WorkExperienceKeyPoints, id: IdSource::Given(kp_id), in_resume: None, on_failure: OnFailure::Missing(message_with_id("Work experience key point with id ", kp_id, " not found")) });
    steps.push(Step::Fetch { table: Table::WorkExperiences, id: IdSource::ParentOf(0), in_resume: None, on_failure: OnFailure::Missing(String::from_str("Work experience not found")) });
    steps.push(Step::Fetch { table: Table::Resumes, id: IdSource::ParentOf(1), in_resume: None, on_failure: OnFailure::Missing(String::from_str("Resume not found")) });
    steps.push(Step::RequireOwner { resume_step: 2 });
    steps.push(Step::Delete { table: Table::WorkExperienceKeyPoints, id: IdSource::Given(kp_id), on_failure: OnFailure::Internal, nothing_deleted: message_with_id("Work experience key point with id ", kp_id, " not found") });
    let ghost plan = steps@.map_values(|s: Step| s@);
    assert(plan[0] == steps@[0]@);
    assert(plan[1] == steps@[1]@);
    assert(plan[2] == steps@[2]@);
    assert(plan[3] == steps@[3]@);
    assert(plan[4] == steps@[4]@);
    assert(plan =~= delete_work_experience_key_point_plan(kp_id));
    assert forall|w: int| 0 <= w < plan.len() && is_write(#[trigger] plan[w]) implies exists|k: int| 0 <= k < w && #[trigger] plan[k] is RequireOwner by {
        assert(plan[3] is RequireOwner);
    }
    Operation::new(Some(user_id), steps, Finish::ParentOf(1))
}
/// The normalised form of an optional text: trimmed, absent when blank.
pub open spec fn normalized_field(original: Option<String>, stored: Option<String>) -> bool {
    match stored {
        Some(t) => normalized_text(option_text(original)) == Some(t@),
        None => normalized_text(option_text(original)) is None,
    }
}

/// The row that adding a work experience inserts: the company name and the
/// description are trimmed, and dropped when blank.
pub fn new_work_experience(resume_id: i32, payload: NewWorkExperienceRequest) -> (row: NewWorkExperience)
    ensures
        row.resume_id == resume_id,
        row.job_title == payload.job_title,
        normalized_field(payload.company_name, row.company_name),
        row.start_date == payload.start_date,
        row.end_date == payload.end_date,
        normalized_field(payload.description, row.description),
        row.display_order == payload.display_order,
{
    let company_name = normalize_optional_text(payload.company_name);
    let description = normalize_optional_text(payload.description);
    NewWorkExperience {
        resume_id,
        job_title: payload.job_title,
        company_name,
        start_date: payload.start_date,
        end_date: payload.end_date,
        description,
        display_order: payload.display_order,
    }
}

/// The changes that updating a work experience applies: a new job title is
/// trimmed; a new company name or description is trimmed, and cleared when blank.
pub fn normalize_work_experience_changes(payload: UpdateWorkExperience) -> (r: UpdateWorkExperience)
    ensures
        match payload.job_title {
            Some(t) => r.job_title matches Some(u) && u@ == trimmed(t@),
            None => r.job_title is None,
        },
        match payload.company_name {
            Some(inner) => r.company_name matches Some(v) && normalized_field(inner, v),
            None => r.company_name is None,
        },
        r.start_date == payload.start_date,
        r.end_date == payload.end_date,
        match payload.description {
            Some(inner) => r.description matches Some(v) && normalized_field(inner, v),
            None => r.description is None,
        },
        r.display_order == payload.display_order,
{
    let job_title = match payload.job_title {
        Some(t) => Some(trim_to_string(t.as_str())),
        None => None,
    };
    UpdateWorkExperience {
        job_title,
        company_name: normalize_optional_string_change(payload.company_name),
        start_date: payload.start_date,
        end_date: payload.end_date,
        description: normalize_optional_string_change(payload.description),
        display_order: payload.display_order,
    }
}

/// Listing: once the resume named by `resume_id` is found public or the caller's, the rows loaded are those whose parent is `resume_id`, and loading them finishes the request.
pub proof fn lemma_list_work_experiences_loads_the_named_parent(resume_id: i32, user_id: Option<i32>, created_by: Option<i32>, is_public: bool)
    requires
        is_public || (user_id is Some && created_by == user_id),
    ensures
        crate::operation::request_of(list_work_experiences_op(resume_id, user_id)) == Some(crate::operation::DbRequest::Fetch { table: crate::operation::Table::Resumes, id: resume_id, in_resume: None }),
        crate::operation::request_of(crate::operation::after_reply(list_work_experiences_op(resume_id, user_id), crate::operation::ReplyView::Found(crate::operation::RowRef::Resume { created_by: created_by, is_public: is_public }))) == Some(crate::operation::DbRequest::Load { table: crate::operation::Table::WorkExperiences, parent_id: resume_id }),
        crate::operation::after_reply(crate::operation::after_reply(list_work_experiences_op(resume_id, user_id), crate::operation::ReplyView::Found(crate::operation::RowRef::Resume { created_by: created_by, is_public: is_public })), crate::operation::ReplyView::Loaded).result == Some(Ok::<crate::operation::Outcome, crate::error::AppErr>(crate::operation::Outcome::Rows)),
{
    reveal_with_fuel(crate::operation::settle, 4);
}

/// Listing: once the resume named by `resume_id` is found public or the caller's, and `work_id` is found among its rows, the rows loaded are those whose parent is `work_id`, and loading them finishes the request.
pub proof fn lemma_list_work_experience_key_points_loads_the_named_parent(resume_id: i32, work_id: i32, user_id: Option<i32>, created_by: Option<i32>, is_public: bool)
    requires
        is_public || (user_id is Some && created_by == user_id),
    ensures
        crate::operation::request_of(list_work_experience_key_points_op(resume_id, work_id, user_id)) == Some(crate::operation::DbRequest::Fetch { table: crate::operation::Table::Resumes, id: resume_id, in_resume: None }),
        crate::operation::request_of(crate::operation::after_reply(list_work_experience_key_points_op(resume_id, work_id, user_id), crate::operation::ReplyView::Found(crate::operation::RowRef::Resume { created_by: created_by, is_public: is_public }))) == Some(crate::operation::DbRequest::Fetch { table: crate::operation::Table::WorkExperiences, id: work_id, in_resume: Some(resume_id) }),
        crate::operation::request_of(crate::operation::after_reply(crate::operation::after_reply(list_work_experience_key_points_op(resume_id, work_id, user_id), crate::operation::ReplyView::Found(crate::operation::RowRef::Resume { created_by: created_by, is_public: is_public })), crate::operation::ReplyView::Found(crate::operation::RowRef::Child { parent: resume_id }))) == Some(crate::operation::DbRequest::Load { table: crate::operation::Table::WorkExperienceKeyPoints, parent_id: work_id }),
        crate::operation::after_reply(crate::operation::after_reply(crate::operation::after_reply(list_work_experience_key_points_op(resume_id, work_id, user_id), crate::operation::ReplyView::Found(crate::operation::RowRef::Resume { created_by: created_by, is_public: is_public })), crate::operation::ReplyView::Found(crate::operation::RowRef::Child { parent: resume_id })), crate::operation::ReplyView::Loaded).result == Some(Ok::<crate::operation::Outcome, crate::error::AppErr>(crate::operation::Outcome::Rows)),
{
    reveal_with_fuel(crate::operation::settle, 4);
}

/// Adding a work experience: the resume named by `resume_id` is fetched; only then is the insert requested, and a successful insert finishes the request.
pub proof fn lemma_create_work_experience_inserts_into_the_named_resume(user_id: i32, resume_id: i32, is_public: bool)
    ensures
        crate::operation::request_of(create_work_experience_op(user_id, resume_id)) == Some(crate::operation::DbRequest::Fetch { table: crate::operation::Table::Resumes, id: resume_id, in_resume: None }),
        crate::operation::request_of(crate::operation::after_reply(create_work_experience_op(user_id, resume_id), crate::operation::ReplyView::Found(crate::operation::RowRef::Resume { created_by: Some(user_id), is_public: is_public }))) == Some(crate::operation::DbRequest::Insert { table: crate::operation::Table::WorkExperiences }),
        crate::operation::after_reply(crate::operation::after_reply(create_work_experience_op(user_id, resume_id), crate::operation::ReplyView::Found(crate::operation::RowRef::Resume { created_by: Some(user_id), is_public: is_public })), crate::operation::ReplyView::Written).result == Some(Ok::<crate::operation::Outcome, crate::error::AppErr>(crate::operation::Outcome::Row)),
{
    reveal_with_fuel(crate::operation::settle, 4);
}

/// Adding a work experience key point: the resume named by `resume_id` is fetched, and once it is the caller's, the WorkExperiences row `work_id` of that same resume; only then is the insert requested, and a successful insert finishes the request.
pub proof fn lemma_create_work_experience_key_point_inserts_into_the_named_resume(user_id: i32, resume_id: i32, work_id: i32, is_public: bool)
    ensures
        crate::operation::request_of(create_work_experience_key_point_op(user_id, resume_id, work_id)) == Some(crate::operation::DbRequest::Fetch { table: crate::operation::Table::Resumes, id: resume_id, in_resume: None }),
        crate::operation::request_of(crate::operation::after_reply(create_work_experience_key_point_op(user_id, resume_id, work_id), crate::operation::ReplyView::Found(crate::operation::RowRef::Resume { created_by: Some(user_id), is_public: is_public }))) == Some(crate::operation::DbRequest::Fetch { table: crate::operation::Table::WorkExperiences, id: work_id, in_resume: Some(resume_id) }),
        crate::operation::request_of(crate::operation::after_reply(crate::operation::after_reply(create_work_experience_key_point_op(user_id, resume_id, work_id), crate::operation::ReplyView::Found(crate::operation::RowRef::Resume { created_by: Some(user_id), is_public: is_public })), crate::operation::ReplyView::Found(crate::operation::RowRef::Child { parent: resume_id }))) == Some(crate::operation::DbRequest::Insert { table: crate::operation::Table::WorkExperienceKeyPoints }),
        crate::operation::after_reply(crate::operation::after_reply(crate::operation::after_reply(create_work_experience_key_point_op(user_id, resume_id, work_id), crate::operation::ReplyView::Found(crate::operation::RowRef::Resume { created_by: Some(user_id), is_public: is_public })), crate::operation::ReplyView::Found(crate::operation::RowRef::Child { parent: resume_id })), crate::operation::ReplyView::Written).result == Some(Ok::<crate::operation::Outcome, crate::error::AppErr>(crate::operation::Outcome::Row)),
{
    reveal_with_fuel(crate::operation::settle, 4);
}

/// Updating a work experience: the work experience named by `work_id` is fetched, then the resume it belongs to; once that resume is found to be the caller's, the update is requested for exactly `work_id`, and a successful write finishes the request.
pub proof fn lemma_update_work_experience_acts_on_the_named_row(user_id: i32, work_id: i32, resume_id: i32, is_public: bool)
    ensures
        crate::operation::request_of(update_work_experience_op(user_id, work_id)) == Some(crate::operation::DbRequest::Fetch { table: crate::operation::Table::WorkExperiences, id: work_id, in_resume: None }),
        crate::operation::request_of(crate::operation::after_reply(update_work_experience_op(user_id, work_id), crate::operation::ReplyView::Found(crate::operation::RowRef::Child { parent: resume_id }))) == Some(crate::operation::DbRequest::Fetch { table: crate::operation::Table::Resumes, id: resume_id, in_resume: None }),
        crate::operation::request_of(crate::operation::after_reply(crate::operation::after_reply(update_work_experience_op(user_id, work_id), crate::operation::ReplyView::Found(crate::operation::RowRef::Child { parent: resume_id })), crate::operation::ReplyView::Found(crate::operation::RowRef::Resume { created_by: Some(user_id), is_public: is_public }))) == Some(crate::operation::DbRequest::Update { table: crate::operation::Table::WorkExperiences, id: work_id }),
        crate::operation::after_reply(crate::operation::after_reply(crate::operation::after_reply(update_work_experience_op(user_id, work_id), crate::operation::ReplyView::Found(crate::operation::RowRef::Child { parent: resume_id })), crate::operation::ReplyView::Found(crate::operation::RowRef::Resume { created_by: Some(user_id), is_public: is_public })), crate::operation::ReplyView::Written).result == Some(Ok::<crate::operation::Outcome, crate::error::AppErr>(crate::operation::Outcome::Row)),
{
    reveal_with_fuel(crate::operation::settle, 4);
}

/// Updating a work experience key point: the work experience key point named by `kp_id` is fetched, then the resume it belongs to; once that resume is found to be the caller's, the update is requested for exactly `kp_id`, and a successful write finishes the request.
pub proof fn lemma_update_work_experience_key_point_acts_on_the_named_row(user_id: i32, kp_id: i32, parent_id: i32, resume_id: i32, is_public: bool)
    ensures
        crate::operation::request_of(update_work_experience_key_point_op(user_id, kp_id)) == Some(crate::operation::DbRequest::Fetch { table: crate::operation::Table::WorkExperienceKeyPoints, id: kp_id, in_resume: None }),
        crate::operation::request_of(crate::operation::after_reply(update_work_experience_key_point_op(user_id, kp_id), crate::operation::ReplyView::Found(crate::operation::RowRef::Child { parent: parent_id }))) == Some(crate::operation::DbRequest::Fetch { table: crate::operation::Table::WorkExperiences, id: parent_id, in_resume: None }),
        crate::operation::request_of(crate::operation::after_reply(crate::operation::after_reply(update_work_experience_key_point_op(user_id, kp_id), crate::operation::ReplyView::Found(crate::operation::RowRef::Child { parent: parent_id })), crate::operation::ReplyView::Found(crate::operation::RowRef::Child { parent: resume_id }))) == Some(crate::operation::DbRequest::Fetch { table: crate::operation::Table::Resumes, id: resume_id, in_resume: None }),
        crate::operation::request_of(crate::operation::after_reply(crate::operation::after_reply(crate::operation::after_reply(update_work_experience_key_point_op(user_id, kp_id), crate::operation::ReplyView::Found(crate::operation::RowRef::Child { parent: parent_id })), crate::operation::ReplyView::Found(crate::operation::RowRef::Child { parent: resume_id })), crate::operation::ReplyView::Found(crate::operation::RowRef::Resume { created_by: Some(user_id), is_public: is_public }))) == Some(crate::operation::DbRequest::Update { table: crate::operation::Table::WorkExperienceKeyPoints, id: kp_id }),
        crate::operation::after_reply(crate::operation::after_reply(crate::operation::after_reply(crate::operation::after_reply(update_work_experience_key_point_op(user_id, kp_id), crate::operation::ReplyView::Found(crate::operation::RowRef::Child { parent: parent_id })), crate::operation::ReplyView::Found(crate::operation::RowRef::Child { parent: resume_id })), crate::operation::ReplyView::Found(crate::operation::RowRef::Resume { created_by: Some(user_id), is_public: is_public })), crate::operation::ReplyView::Written).result == Some(Ok::<crate::operation::Outcome, crate::error::AppErr>(crate::operation::Outcome::RowAndResumeId(resume_id))),
{
    reveal_with_fuel(crate::operation::settle, 4);
}

/// Deleting a work experience: the work experience named by `work_id` is fetched, then the resume it belongs to; once that resume is found to be the caller's, the delete is requested for exactly `work_id`, and removing a row finishes the request, reporting that resume.
pub proof fn lemma_delete_work_experience_acts_on_the_named_row(user_id: i32, work_id: i32, resume_id: i32, is_public: bool, deleted: u64)
    requires
        deleted > 0,
    ensures
        crate::operation::request_of(delete_work_experience_op(user_id, work_id)) == Some(crate::operation::DbRequest::Fetch { table: crate::operation::Table::WorkExperiences, id: work_id, in_resume: None }),
        crate::operation::request_of(crate::operation::after_reply(delete_work_experience_op(user_id, work_id), crate::operation::ReplyView::Found(crate::operation::RowRef::Child { parent: resume_id }))) == Some(crate::operation::DbRequest::Fetch { table: crate::operation::Table::Resumes, id: resume_id, in_resume: None }),
        crate::operation::request_of(crate::operation::after_reply(crate::operation::after_reply(delete_work_experience_op(user_id, work_id), crate::operation::ReplyView::Found(crate::operation::RowRef::Child { parent: resume_id })), crate::operation::ReplyView::Found(crate::operation::RowRef::Resume { created_by: Some(user_id), is_public: is_public }))) == Some(crate::operation::DbRequest::Delete { table: crate::operation::Table::WorkExperiences, id: work_id }),
        crate::operation::after_reply(crate::operation::after_reply(crate::operation::after_reply(delete_work_experience_op(user_id, work_id), crate::operation::ReplyView::Found(crate::operation::RowRef::Child { parent: resume_id })), crate::operation::ReplyView::Found(crate::operation::RowRef::Resume { created_by: Some(user_id), is_public: is_public })), crate::operation::ReplyView::Deleted(deleted)).result == Some(Ok::<crate::operation::Outcome, crate::error::AppErr>(crate::operation::Outcome::ResumeId(resume_id))),
{
    reveal_with_fuel(crate::operation::settle, 4);
}

/// Deleting a work experience key point: the work experience key point named by `kp_id` is fetched, then the resume it belongs to; once that resume is found to be the caller's, the delete is requested for exactly `kp_id`, and removing a row finishes the request, reporting that resume.
pub proof fn lemma_delete_work_experience_key_point_acts_on_the_named_row(user_id: i32, kp_id: i32, parent_id: i32, resume_id: i32, is_public: bool, deleted: u64)
    requires
        deleted > 0,
    ensures
        crate::operation::request_of(delete_work_experience_key_point_op(user_id, kp_id)) == Some(crate::operation::DbRequest::Fetch { table: crate::operation::Table::WorkExperienceKeyPoints, id: kp_id, in_resume: None }),
        crate::operation::request_of(crate::operation::after_reply(delete_work_experience_key_point_op(user_id, kp_id), crate::operation::ReplyView::Found(crate::operation::RowRef::Child { parent: parent_id }))) == Some(crate::operation::DbRequest::Fetch { table: crate::operation::Table::WorkExperiences, id: parent_id, in_resume: None }),
        crate::operation::request_of(crate::operation::after_reply(crate::operation::after_reply(delete_work_experience_key_point_op(user_id, kp_id), crate::operation::ReplyView::Found(crate::operation::RowRef::Child { parent: parent_id })), crate::operation::ReplyView::Found(crate::operation::RowRef::Child { parent: resume_id }))) == Some(crate::operation::DbRequest::Fetch { table: crate::operation::Table::Resumes, id: resume_id, in_resume: None }),
        crate::operation::request_of(crate::operation::after_reply(crate::operation::after_reply(crate::operation::after_reply(delete_work_experience_key_point_op(user_id, kp_id), crate::operation::ReplyView::Found(crate::operation::RowRef::Child { parent: parent_id })), crate::operation::ReplyView::Found(crate::operation::RowRef::Child { parent: resume_id })), crate::operation::ReplyView::Found(crate::operation::RowRef::Resume { created_by: Some(user_id), is_public: is_public }))) == Some(crate::operation::DbRequest::Delete { table: crate::operation::Table::WorkExperienceKeyPoints, id: kp_id }),
        crate::operation::after_reply(crate::operation::after_reply(crate::operation::after_reply(crate::operation::after_reply(delete_work_experience_key_point_op(user_id, kp_id), crate::operation::ReplyView::Found(crate::operation::RowRef::Child { parent: parent_id })), crate::operation::ReplyView::Found(crate::operation::RowRef::Child { parent: resume_id })), crate::operation::ReplyView::Found(crate::operation::RowRef::Resume { created_by: Some(user_id), is_public: is_public })), crate::operation::ReplyView::Deleted(deleted)).result == Some(Ok::<crate::operation::Outcome, crate::error::AppErr>(crate::operation::Outcome::ResumeId(resume_id))),
{
    reveal_with_fuel(crate::operation::settle, 4);
}

} // verus!
