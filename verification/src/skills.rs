use vstd::prelude::*;
use crate::error::AppErr;
use crate::operation::{
    after_reply, Outcome, ReplyView, RowRef,
    guards_loads, guards_writes, is_write, start, FailureRule, Finish, IdSource, OnFailure, Operation, Step,
    StepView, Table,
};
#[allow(unused_imports)]
use crate::text::{int_text, message_with_id};

use crate::models::{NewSkillRequest, NewSkill};

verus! {

/// The row that adding a skill to resume `resume_id` inserts: the
/// request's fields, under that resume.
pub fn new_skill(resume_id: i32, payload: NewSkillRequest) -> (row: NewSkill)
    ensures
        row.resume_id == resume_id,
        row.skill_name == payload.skill_name,
        row.confidence_percentage == payload.confidence_percentage,
        row.display_order == payload.display_order,
{
    NewSkill {
        resume_id,
        skill_name: payload.skill_name,
        confidence_percentage: payload.confidence_percentage,
        display_order: payload.display_order,
    }
}


/// Fetch the resume, check it is visible, load its skills.
pub open spec fn list_skills_plan(resume_id: i32) -> Seq<StepView> {
    seq![
        StepView::Fetch { table: Table::Resumes, id: IdSource::Given(resume_id), in_resume: None, on_failure: FailureRule::Generic },
        StepView::RequireVisible { resume_step: 0, on_hidden: FailureRule::Generic },
        StepView::Load { table: Table::Skills, parent: IdSource::Given(resume_id), on_failure: FailureRule::Generic },
    ]
}

/// The state in which [`list_skills`] starts.
pub open spec fn list_skills_op(resume_id: i32, user_id: Option<i32>) -> crate::operation::OpView {
    start(user_id, list_skills_plan(resume_id), Finish::Rows)
}

/// Lists the skills of a resume that the caller may see (public, or owned by
/// the signed-in user), in display order.
pub fn list_skills(resume_id: i32, user_id: Option<i32>) -> (op: Operation)
    ensures
        op.wf(),
        op@ == list_skills_op(resume_id, user_id),
        guards_loads(op@.plan),
{
    let mut steps: Vec<Step> = Vec::new();
    steps.push(Step::Fetch { table: Table::Resumes, id: IdSource::Given(resume_id), in_resume: None, on_failure: OnFailure::Generic });
    steps.push(Step::RequireVisible { resume_step: 0, on_hidden: OnFailure::Generic });
    steps.push(Step::Load { table: Table::Skills, parent: IdSource::Given(resume_id), on_failure: OnFailure::Generic });
    let ghost plan = steps@.map_values(|s: Step| s@);
    assert(plan[0] == steps@[0]@);
    assert(plan[1] == steps@[1]@);
    assert(plan[2] == steps@[2]@);
    assert(plan =~= list_skills_plan(resume_id));
    assert forall|w: int| 0 <= w < plan.len() && #[trigger] plan[w] is Load implies exists|k: int| 0 <= k < w && #[trigger] plan[k] is RequireVisible by {
        assert(plan[1] is RequireVisible);
    }
    Operation::new(user_id, steps, Finish::Rows)
}

/// Fetch the resume, check ownership, insert the skill.
pub open spec fn create_skill_plan(resume_id: i32) -> Seq<StepView> {
    seq![
        StepView::Fetch { table: Table::Resumes, id: IdSource::Given(resume_id), in_resume: None, on_failure: FailureRule::Generic },
        StepView::RequireOwner { resume_step: 0 },
        StepView::Insert { table: Table::Skills, on_failure: FailureRule::Generic },
    ]
}

/// The state in which [`create_skill`] starts.
pub open spec fn create_skill_op(user_id: i32, resume_id: i32) -> crate::operation::OpView {
    start(Some(user_id), create_skill_plan(resume_id), Finish::Row)
}

/// Adds a skill to a resume that the signed-in user owns; the result is the
/// inserted row.
pub fn create_skill(user_id: i32, resume_id: i32) -> (op: Operation)
    ensures
        op.wf(),
        op@ == create_skill_op(user_id, resume_id),
        guards_writes(op@.plan),
{
    let mut steps: Vec<Step> = Vec::new();
    steps.push(Step::Fetch { table: Table::Resumes, id: IdSource::Given(resume_id), in_resume: None, on_failure: OnFailure::Generic });
    steps.push(Step::RequireOwner { resume_step: 0 });
    steps.push(Step::Insert { table: Table::Skills, on_failure: OnFailure::Generic });
    let ghost plan = steps@.map_values(|s: Step| s@);
    assert(plan[0] == steps@[0]@);
    assert(plan[1] == steps@[1]@);
    assert(plan[2] == steps@[2]@);
    assert(plan =~= create_skill_plan(resume_id));
    assert forall|w: int| 0 <= w < plan.len() && is_write(#[trigger] plan[w]) implies exists|k: int| 0 <= k < w && #[trigger] plan[k] is RequireOwner by {
        assert(plan[1] is RequireOwner);
    }
    Operation::new(Some(user_id), steps, Finish::Row)
}

/// Fetch the skill and its resume, check ownership, update the skill.
pub open spec fn update_skill_plan(skill_id: i32) -> Seq<StepView> {
    seq![
        StepView::Fetch { table: Table::Skills, id: IdSource::Given(skill_id), in_resume: None, on_failure: FailureRule::Missing("Skill with id "@ + int_text(skill_id as int) + " not found"@) },
        StepView::Fetch { table: Table::Resumes, id: IdSource::ParentOf(0), in_resume: None, on_failure: FailureRule::Missing("Resume not found"@) },
        StepView::RequireOwner { resume_step: 1 },
        StepView::Update { table: Table::Skills, id: IdSource::Given(skill_id), on_failure: FailureRule::Missing("Skill with id "@ + int_text(skill_id as int) + " not found"@) },
    ]
}

/// The state in which [`update_skill`] starts.
pub open spec fn update_skill_op(user_id: i32, skill_id: i32) -> crate::operation::OpView {
    start(Some(user_id), update_skill_plan(skill_id), Finish::Row)
}

/// Changes a skill of a resume that the signed-in user owns; the result is
/// the updated row.
pub fn update_skill(user_id: i32, skill_id: i32) -> (op: Operation)
    ensures
        op.wf(),
        op@ == update_skill_op(user_id, skill_id),
        guards_writes(op@.plan),
{
    let mut steps: Vec<Step> = Vec::new();
    steps.push(Step::Fetch { table: Table::Skills, id: IdSource::Given(skill_id), in_resume: None, on_failure: OnFailure::Missing(message_with_id("Skill with id ", skill_id, " not found")) });
    steps.push(Step::Fetch { table: Table::Resumes, id: IdSource::ParentOf(0), in_resume: None, on_failure: OnFailure::Missing(String::from_str("Resume not found")) });
    steps.push(Step::RequireOwner { resume_step: 1 });
    steps.push(Step::Update { table: Table::Skills, id: IdSource::Given(skill_id), on_failure: OnFailure::Missing(message_with_id("Skill with id ", skill_id, " not found")) });
    let ghost plan = steps@.map_values(|s: Step| s@);
    assert(plan[0] == steps@[0]@);
    assert(plan[1] == steps@[1]@);
    assert(plan[2] == steps@[2]@);
    assert(plan[3] == steps@[3]@);
    assert(plan =~= update_skill_plan(skill_id));
    assert forall|w: int| 0 <= w < plan.len() && is_write(#[trigger] plan[w]) implies exists|k: int| 0 <= k < w && #[trigger] plan[k] is RequireOwner by {
        assert(plan[2] is RequireOwner);
    }
    Operation::new(Some(user_id), steps, Finish::Row)
}

/// Fetch the skill and its resume, check ownership, delete the skill.
pub open spec fn delete_skill_plan(skill_id: i32) -> Seq<StepView> {
    seq![
        StepView::Fetch { table: Table::Skills, id: IdSource::Given(skill_id), in_resume: None, on_failure: FailureRule::Missing("Skill with id "@ + int_text(skill_id as int) + " not found"@) },
        StepView::Fetch { table: Table::Resumes, id: IdSource::ParentOf(0), in_resume: None, on_failure: FailureRule::Missing("Resume not found"@) },
        StepView::RequireOwner { resume_step: 1 },
        StepView::Delete { table: Table::Skills, id: IdSource::Given(skill_id), on_failure: FailureRule::Internal, nothing_deleted: "Skill with id "@ + int_text(skill_id as int) + " not found"@ },
    ]
}

/// The state in which [`delete_skill`] starts.
pub open spec fn delete_skill_op(user_id: i32, skill_id: i32) -> crate::operation::OpView {
    start(Some(user_id), delete_skill_plan(skill_id), Finish::ParentOf(0))
}

/// Removes a skill from a resume that the signed-in user owns; the result is the id of the resume.
pub fn delete_skill(user_id: i32, skill_id: i32) -> (op: Operation)
    ensures
        op.wf(),
        op@ == delete_skill_op(user_id, skill_id),
        guards_writes(op@.plan),
{
    let mut steps: Vec<Step> = Vec::new();
    steps.push(Step::Fetch { table: Table::Skills, id: IdSource::Given(skill_id), in_resume: None, on_failure: OnFailure::Missing(message_with_id("Skill with id ", skill_id, " not found")) });
    steps.push(Step::Fetch { table: Table::Resumes, id: IdSource::ParentOf(0), in_resume: None, on_failure: OnFailure::Missing(String::from_str("Resume not found")) });
    steps.push(Step::RequireOwner { resume_step: 1 });
    steps.push(Step::Delete { table: Table::Skills, id: IdSource::Given(skill_id), on_failure: OnFailure::Internal, nothing_deleted: message_with_id("Skill with id ", skill_id, " not found") });
    let ghost plan = steps@.map_values(|s: Step| s@);
    assert(plan[0] == steps@[0]@);
    assert(plan[1] == steps@[1]@);
    assert(plan[2] == steps@[2]@);
    assert(plan[3] == steps@[3]@);
    assert(plan =~= delete_skill_plan(skill_id));
    assert forall|w: int| 0 <= w < plan.len() && is_write(#[trigger] plan[w]) implies exists|k: int| 0 <= k < w && #[trigger] plan[k] is RequireOwner by {
        assert(plan[2] is RequireOwner);
    }
    Operation::new(Some(user_id), steps, Finish::ParentOf(0))
}

/// Only the owner of a resume may add skills to it: for anyone else the
/// request ends with `Forbidden` before anything is inserted.
pub proof fn lemma_non_owner_cannot_add_skill(user_id: i32, resume_id: i32, created_by: Option<i32>, is_public: bool)
    requires
        created_by != Some(user_id),
    ensures
        after_reply(
            start(Some(user_id), create_skill_plan(resume_id), Finish::Row),
            ReplyView::Found(RowRef::Resume { created_by, is_public }),
        ).result == Some(Err::<Outcome, AppErr>(AppErr::Forbidden)),
{
}

/// Listing: once the resume named by `resume_id` is found public or the caller's, the rows loaded are those whose parent is `resume_id`, and loading them finishes the request.
pub proof fn lemma_list_skills_loads_the_named_parent(resume_id: i32, user_id: Option<i32>, created_by: Option<i32>, is_public: bool)
    requires
        is_public || (user_id is Some && created_by == user_id),
    ensures
        crate::operation::request_of(list_skills_op(resume_id, user_id)) == Some(crate::operation::DbRequest::Fetch { table: crate::operation::Table::Resumes, id: resume_id, in_resume: None }),
        crate::operation::request_of(crate::operation::after_reply(list_skills_op(resume_id, user_id), crate::operation::ReplyView::Found(crate::operation::RowRef::Resume { created_by: created_by, is_public: is_public }))) == Some(crate::operation::DbRequest::Load { table: crate::operation::Table::Skills, parent_id: resume_id }),
        crate::operation::after_reply(crate::operation::after_reply(list_skills_op(resume_id, user_id), crate::operation::ReplyView::Found(crate::operation::RowRef::Resume { created_by: created_by, is_public: is_public })), crate::operation::ReplyView::Loaded).result == Some(Ok::<crate::operation::Outcome, crate::error::AppErr>(crate::operation::Outcome::Rows)),
{
    reveal_with_fuel(crate::operation::settle, 4);
}

/// Adding a skill: the resume named by `resume_id` is fetched; only then is the insert requested, and a successful insert finishes the request.
pub proof fn lemma_create_skill_inserts_into_the_named_resume(user_id: i32, resume_id: i32, is_public: bool)
    ensures
        crate::operation::request_of(create_skill_op(user_id, resume_id)) == Some(crate::operation::DbRequest::Fetch { table: crate::operation::Table::Resumes, id: resume_id, in_resume: None }),
        crate::operation::request_of(crate::operation::after_reply(create_skill_op(user_id, resume_id), crate::operation::ReplyView::Found(crate::operation::RowRef::Resume { created_by: Some(user_id), is_public: is_public }))) == Some(crate::operation::DbRequest::Insert { table: crate::operation::Table::Skills }),
        crate::operation::after_reply(crate::operation::after_reply(create_skill_op(user_id, resume_id), crate::operation::ReplyView::Found(crate::operation::RowRef::Resume { created_by: Some(user_id), is_public: is_public })), crate::operation::ReplyView::Written).result == Some(Ok::<crate::operation::Outcome, crate::error::AppErr>(crate::operation::Outcome::Row)),
{
    reveal_with_fuel(crate::operation::settle, 4);
}

/// Updating a skill: the skill named by `skill_id` is fetched, then the resume it belongs to; once that resume is found to be the caller's, the update is requested for exactly `skill_id`, and a successful write finishes the request.
pub proof fn lemma_update_skill_acts_on_the_named_row(user_id: i32, skill_id: i32, resume_id: i32, is_public: bool)
    ensures
        crate::operation::request_of(update_skill_op(user_id, skill_id)) == Some(crate::operation::DbRequest::Fetch { table: crate::operation::Table::Skills, id: skill_id, in_resume: None }),
        crate::operation::request_of(crate::operation::after_reply(update_skill_op(user_id, skill_id), crate::operation::ReplyView::Found(crate::operation::RowRef::Child { parent: resume_id }))) == Some(crate::operation::DbRequest::Fetch { table: crate::operation::Table::Resumes, id: resume_id, in_resume: None }),
        crate::operation::request_of(crate::operation::after_reply(crate::operation::after_reply(update_skill_op(user_id, skill_id), crate::operation::ReplyView::Found(crate::operation::RowRef::Child { parent: resume_id })), crate::operation::ReplyView::Found(crate::operation::RowRef::Resume { created_by: Some(user_id), is_public: is_public }))) == Some(crate::operation::DbRequest::Update { table: crate::operation::Table::Skills, id: skill_id }),
        crate::operation::after_reply(crate::operation::after_reply(crate::operation::after_reply(update_skill_op(user_id, skill_id), crate::operation::ReplyView::Found(crate::operation::RowRef::Child { parent: resume_id })), crate::operation::ReplyView::Found(crate::operation::RowRef::Resume { created_by: Some(user_id), is_public: is_public })), crate::operation::ReplyView::Written).result == Some(Ok::<crate::operation::Outcome, crate::error::AppErr>(crate::operation::Outcome::Row)),
{
    reveal_with_fuel(crate::operation::settle, 4);
}

/// Deleting a skill: the skill named by `skill_id` is fetched, then the resume it belongs to; once that resume is found to be the caller's, the delete is requested for exactly `skill_id`, and removing a row finishes the request, reporting that resume.
pub proof fn lemma_delete_skill_acts_on_the_named_row(user_id: i32, skill_id: i32, resume_id: i32, is_public: bool, deleted: u64)
    requires
        deleted > 0,
    ensures
        crate::operation::request_of(delete_skill_op(user_id, skill_id)) == Some(crate::operation::DbRequest::Fetch { table: crate::operation::Table::Skills, id: skill_id, in_resume: None }),
        crate::operation::request_of(crate::operation::after_reply(delete_skill_op(user_id, skill_id), crate::operation::ReplyView::Found(crate::operation::RowRef::Child { parent: resume_id }))) == Some(crate::operation::DbRequest::Fetch { table: crate::operation::Table::Resumes, id: resume_id, in_resume: None }),
        crate::operation::request_of(crate::operation::after_reply(crate::operation::after_reply(delete_skill_op(user_id, skill_id), crate::operation::ReplyView::Found(crate::operation::RowRef::Child { parent: resume_id })), crate::operation::ReplyView::Found(crate::operation::RowRef::Resume { created_by: Some(user_id), is_public: is_public }))) == Some(crate::operation::DbRequest::Delete { table: crate::operation::Table::Skills, id: skill_id }),
        crate::operation::after_reply(crate::operation::after_reply(crate::operation::after_reply(delete_skill_op(user_id, skill_id), crate::operation::ReplyView::Found(crate::operation::RowRef::Child { parent: resume_id })), crate::operation::ReplyView::Found(crate::operation::RowRef::Resume { created_by: Some(user_id), is_public: is_public })), crate::operation::ReplyView::Deleted(deleted)).result == Some(Ok::<crate::operation::Outcome, crate::error::AppErr>(crate::operation::Outcome::ResumeId(resume_id))),
{
    reveal_with_fuel(crate::operation::settle, 4);
}

} // verus!
