use vstd::prelude::*;
use crate::operation::{
    guards_loads, guards_writes, is_write, start, FailureRule, Finish, IdSource, OnFailure, Operation, Step,
    StepView, Table,
};
#[allow(unused_imports)]
use crate::text::{int_text, message_with_id};

use crate::models::{NewPortfolioProjectRequest, NewPortfolioProject, NewPortfolioKeyPointRequest, NewPortfolioKeyPoint, NewPortfolioTechnologyRequest, NewPortfolioTechnology};

verus! {

/// The row that adding a portfolio project to resume `resume_id` inserts: the
/// request's fields, under that resume.
pub fn new_portfolio_project(resume_id: i32, payload: NewPortfolioProjectRequest) -> (row: NewPortfolioProject)
    ensures
        row.resume_id == resume_id,
        row.project_name == payload.project_name,
        row.image_url == payload.image_url,
        row.project_link == payload.project_link,
        row.source_code_link == payload.source_code_link,
        row.description == payload.description,
        row.display_order == payload.display_order,
{
    NewPortfolioProject {
        resume_id,
        project_name: payload.project_name,
        image_url: payload.image_url,
        project_link: payload.project_link,
        source_code_link: payload.source_code_link,
        description: payload.description,
        display_order: payload.display_order,
    }
}

/// The row that adding a portfolio key point to portfolio project `portfolio_project_id` inserts: the
/// request's fields, under that portfolio project.
pub fn new_portfolio_key_point(portfolio_project_id: i32, payload: NewPortfolioKeyPointRequest) -> (row: NewPortfolioKeyPoint)
    ensures
        row.portfolio_project_id == portfolio_project_id,
        row.key_point == payload.key_point,
        row.display_order == payload.display_order,
{
    NewPortfolioKeyPoint {
        portfolio_project_id,
        key_point: payload.key_point,
        display_order: payload.display_order,
    }
}

/// The row that adding a portfolio technology to portfolio project `portfolio_project_id` inserts: the
/// request's fields, under that portfolio project.
pub fn new_portfolio_technology(portfolio_project_id: i32, payload: NewPortfolioTechnologyRequest) -> (row: NewPortfolioTechnology)
    ensures
        row.portfolio_project_id == portfolio_project_id,
        row.technology_name == payload.technology_name,
        row.display_order == payload.display_order,
{
    NewPortfolioTechnology {
        portfolio_project_id,
        technology_name: payload.technology_name,
        display_order: payload.display_order,
    }
}


/// Fetch the resume, check it is visible, load its portfolio projects.
pub open spec fn list_portfolio_projects_plan(resume_id: i32) -> Seq<StepView> {
    seq![
        StepView::Fetch { table: Table::Resumes, id: IdSource::Given(resume_id), in_resume: None, on_failure: FailureRule::Generic },
        StepView::RequireVisible { resume_step: 0, on_hidden: FailureRule::Generic },
        StepView::Load { table: Table::PortfolioProjects, parent: IdSource::Given(resume_id), on_failure: FailureRule::Generic },
    ]
}

/// The state in which [`list_portfolio_projects`] starts.
pub open spec fn list_portfolio_projects_op(resume_id: i32, user_id: Option<i32>) -> crate::operation::OpView {
    start(user_id, list_portfolio_projects_plan(resume_id), Finish::Rows)
}

/// Lists the portfolio projects of a resume that the caller may see (public, or owned by
/// the signed-in user), in display order.
pub fn list_portfolio_projects(resume_id: i32, user_id: Option<i32>) -> (op: Operation)
    ensures
        op.wf(),
        op@ == list_portfolio_projects_op(resume_id, user_id),
        guards_loads(op@.plan),
{
    let mut steps: Vec<Step> = Vec::new();
    steps.push(Step::Fetch { table: Table::Resumes, id: IdSource::Given(resume_id), in_resume: None, on_failure: OnFailure::Generic });
    steps.push(Step::RequireVisible { resume_step: 0, on_hidden: OnFailure::Generic });
    steps.push(Step::Load { table: Table::PortfolioProjects, parent: IdSource::Given(resume_id), on_failure: OnFailure::Generic });
    let ghost plan = steps@.map_values(|s: Step| s@);
    assert(plan[0] == steps@[0]@);
    assert(plan[1] == steps@[1]@);
    assert(plan[2] == steps@[2]@);
    assert(plan =~= list_portfolio_projects_plan(resume_id));
    assert forall|w: int| 0 <= w < plan.len() && #[trigger] plan[w] is Load implies exists|k: int| 0 <= k < w && #[trigger] plan[k] is RequireVisible by {
        assert(plan[1] is RequireVisible);
    }
    Operation::new(user_id, steps, Finish::Rows)
}

/// Fetch the resume, check it is visible, fetch the portfolio project within it, load its key points.
pub open spec fn list_portfolio_key_points_plan(resume_id: i32, project_id: i32) -> Seq<StepView> {
    seq![
        StepView::Fetch { table: Table::Resumes, id: IdSource::Given(resume_id), in_resume: None, on_failure: FailureRule::Generic },
        StepView::RequireVisible { resume_step: 0, on_hidden: FailureRule::Generic },
        StepView::Fetch { table: Table::PortfolioProjects, id: IdSource::Given(project_id), in_resume: Some(resume_id), on_failure: FailureRule::Generic },
        StepView::Load { table: Table::PortfolioKeyPoints, parent: IdSource::Given(project_id), on_failure: FailureRule::Generic },
    ]
}

/// The state in which [`list_portfolio_key_points`] starts.
pub open spec fn list_portfolio_key_points_op(resume_id: i32, project_id: i32, user_id: Option<i32>) -> crate::operation::OpView {
    start(user_id, list_portfolio_key_points_plan(resume_id, project_id), Finish::Rows)
}

/// Lists the key points of a portfolio project of a resume that the caller may see, in
/// display order.
pub fn list_portfolio_key_points(resume_id: i32, project_id: i32, user_id: Option<i32>) -> (op: Operation)
    ensures
        op.wf(),
        op@ == list_portfolio_key_points_op(resume_id, project_id, user_id),
        guards_loads(op@.plan),
{
    let mut steps: Vec<Step> = Vec::new();
    steps.push(Step::Fetch { table: Table::Resumes, id: IdSource::Given(resume_id), in_resume: None, on_failure: OnFailure::Generic });
    steps.push(Step::RequireVisible { resume_step: 0, on_hidden: OnFailure::Generic });
    steps.push(Step::Fetch { table: Table::PortfolioProjects, id: IdSource::Given(project_id), in_resume: Some(resume_id), on_failure: OnFailure::Generic });
    steps.push(Step::Load { table: Table::PortfolioKeyPoints, parent: IdSource::Given(project_id), on_failure: OnFailure::Generic });
    let ghost plan = steps@.map_values(|s: Step| s@);
    assert(plan[0] == steps@[0]@);
    assert(plan[1] == steps@[1]@);
    assert(plan[2] == steps@[2]@);
    assert(plan[3] == steps@[3]@);
    assert(plan =~= list_portfolio_key_points_plan(resume_id, project_id));
    assert forall|w: int| 0 <= w < plan.len() && #[trigger] plan[w] is Load implies exists|k: int| 0 <= k < w && #[trigger] plan[k] is RequireVisible by {
        assert(plan[1] is RequireVisible);
    }
    Operation::new(user_id, steps, Finish::Rows)
}

/// Fetch the resume, check it is visible, fetch the portfolio project within it, load its technologies.
pub open spec fn list_portfolio_technologies_plan(resume_id: i32, project_id: i32) -> Seq<StepView> {
    seq![
        StepView::Fetch { table: Table::Resumes, id: IdSource::Given(resume_id), in_resume: None, on_failure: FailureRule::Generic },
        StepView::RequireVisible { resume_step: 0, on_hidden: FailureRule::Generic },
        StepView::Fetch { table: Table::PortfolioProjects, id: IdSource::Given(project_id), in_resume: Some(resume_id), on_failure: FailureRule::Generic },
        StepView::Load { table: Table::PortfolioTechnologies, parent: IdSource::Given(project_id), on_failure: FailureRule::Generic },
    ]
}

/// The state in which [`list_portfolio_technologies`] starts.
pub open spec fn list_portfolio_technologies_op(resume_id: i32, project_id: i32, user_id: Option<i32>) -> crate::operation::OpView {
    start(user_id, list_portfolio_technologies_plan(resume_id, project_id), Finish::Rows)
}

/// Lists the technologies of a portfolio project of a resume that the caller may see, in
/// display order.
pub fn list_portfolio_technologies(resume_id: i32, project_id: i32, user_id: Option<i32>) -> (op: Operation)
    ensures
        op.wf(),
        op@ == list_portfolio_technologies_op(resume_id, project_id, user_id),
        guards_loads(op@.plan),
{
    let mut steps: Vec<Step> = Vec::new();
    steps.push(Step::Fetch { table: Table::Resumes, id: IdSource::Given(resume_id), in_resume: None, on_failure: OnFailure::Generic });
    steps.push(Step::RequireVisible { resume_step: 0, on_hidden: OnFailure::Generic });
    steps.push(Step::Fetch { table: Table::PortfolioProjects, id: IdSource::Given(project_id), in_resume: Some(resume_id), on_failure: OnFailure::Generic });
    steps.push(Step::Load { table: Table::PortfolioTechnologies, parent: IdSource::Given(project_id), on_failure: OnFailure::Generic });
    let ghost plan = steps@.map_values(|s: Step| s@);
    assert(plan[0] == steps@[0]@);
    assert(plan[1] == steps@[1]@);
    assert(plan[2] == steps@[2]@);
    assert(plan[3] == steps@[3]@);
    assert(plan =~= list_portfolio_technologies_plan(resume_id, project_id));
    assert forall|w: int| 0 <= w < plan.len() && #[trigger] plan[w] is Load implies exists|k: int| 0 <= k < w && #[trigger] plan[k] is RequireVisible by {
        assert(plan[1] is RequireVisible);
    }
    Operation::new(user_id, steps, Finish::Rows)
}

/// Fetch the resume, check ownership, insert the portfolio project.
pub open spec fn create_portfolio_project_plan(resume_id: i32) -> Seq<StepView> {
    seq![
        StepView::Fetch { table: Table::Resumes, id: IdSource::Given(resume_id), in_resume: None, on_failure: FailureRule::Generic },
        StepView::RequireOwner { resume_step: 0 },
        StepView::Insert { table: Table::PortfolioProjects, on_failure: FailureRule::Generic },
    ]
}

/// The state in which [`create_portfolio_project`] starts.
pub open spec fn create_portfolio_project_op(user_id: i32, resume_id: i32) -> crate::operation::OpView {
    start(Some(user_id), create_portfolio_project_plan(resume_id), Finish::Row)
}

/// Adds a portfolio project to a resume that the signed-in user owns; the result is the
/// inserted row.
pub fn create_portfolio_project(user_id: i32, resume_id: i32) -> (op: Operation)
    ensures
        op.wf(),
        op@ == create_portfolio_project_op(user_id, resume_id),
        guards_writes(op@.plan),
{
    let mut steps: Vec<Step> = Vec::new();
    steps.push(Step::Fetch { table: Table::Resumes, id: IdSource::Given(resume_id), in_resume: None, on_failure: OnFailure::Generic });
    steps.push(Step::RequireOwner { resume_step: 0 });
    steps.push(Step::Insert { table: Table::PortfolioProjects, on_failure: OnFailure::Generic });
    let ghost plan = steps@.map_values(|s: Step| s@);
    assert(plan[0] == steps@[0]@);
    assert(plan[1] == steps@[1]@);
    assert(plan[2] == steps@[2]@);
    assert(plan =~= create_portfolio_project_plan(resume_id));
    assert forall|w: int| 0 <= w < plan.len() && is_write(#[trigger] plan[w]) implies exists|k: int| 0 <= k < w && #[trigger] plan[k] is RequireOwner by {
        assert(plan[1] is RequireOwner);
    }
    Operation::new(Some(user_id), steps, Finish::Row)
}

/// Fetch the resume, check ownership, fetch the portfolio project within the resume, insert the key point.
pub open spec fn create_portfolio_key_point_plan(resume_id: i32, project_id: i32) -> Seq<StepView> {
    seq![
        StepView::Fetch { table: Table::Resumes, id: IdSource::Given(resume_id), in_resume: None, on_failure: FailureRule::Generic },
        StepView::RequireOwner { resume_step: 0 },
        StepView::Fetch { table: Table::PortfolioProjects, id: IdSource::Given(project_id), in_resume: Some(resume_id), on_failure: FailureRule::Generic },
        StepView::Insert { table: Table::PortfolioKeyPoints, on_failure: FailureRule::Generic },
    ]
}

/// The state in which [`create_portfolio_key_point`] starts.
pub open spec fn create_portfolio_key_point_op(user_id: i32, resume_id: i32, project_id: i32) -> crate::operation::OpView {
    start(Some(user_id), create_portfolio_key_point_plan(resume_id, project_id), Finish::Row)
}

/// Adds a key point to a portfolio project of a resume that the signed-in user owns; the
/// result is the inserted row.
pub fn create_portfolio_key_point(user_id: i32, resume_id: i32, project_id: i32) -> (op: Operation)
    ensures
        op.wf(),
        op@ == create_portfolio_key_point_op(user_id, resume_id, project_id),
        guards_writes(op@.plan),
{
    let mut steps: Vec<Step> = Vec::new();
    steps.push(Step::Fetch { table: Table::Resumes, id: IdSource::Given(resume_id), in_resume: None, on_failure: OnFailure::Generic });
    steps.push(Step::RequireOwner { resume_step: 0 });
    steps.push(Step::Fetch { table: Table::PortfolioProjects, id: IdSource::Given(project_id), in_resume: Some(resume_id), on_failure: OnFailure::Generic });
    steps.push(Step::Insert { table: Table::PortfolioKeyPoints, on_failure: OnFailure::Generic });
    let ghost plan = steps@.map_values(|s: Step| s@);
    assert(plan[0] == steps@[0]@);
    assert(plan[1] == steps@[1]@);
    assert(plan[2] == steps@[2]@);
    assert(plan[3] == steps@[3]@);
    assert(plan =~= create_portfolio_key_point_plan(resume_id, project_id));
    assert forall|w: int| 0 <= w < plan.len() && is_write(#[trigger] plan[w]) implies exists|k: int| 0 <= k < w && #[trigger] plan[k] is RequireOwner by {
        assert(plan[1] is RequireOwner);
    }
    Operation::new(Some(user_id), steps, Finish::Row)
}

/// Fetch the resume, check ownership, fetch the portfolio project within the resume, insert the technology.
pub open spec fn create_portfolio_technology_plan(resume_id: i32, project_id: i32) -> Seq<StepView> {
    seq![
        StepView::Fetch { table: Table::Resumes, id: IdSource::Given(resume_id), in_resume: None, on_failure: FailureRule::Generic },
        StepView::RequireOwner { resume_step: 0 },
        StepView::Fetch { table: Table::PortfolioProjects, id: IdSource::Given(project_id), in_resume: Some(resume_id), on_failure: FailureRule::Generic },
        StepView::Insert { table: Table::PortfolioTechnologies, on_failure: FailureRule::Generic },
    ]
}

/// The state in which [`create_portfolio_technology`] starts.
pub open spec fn create_portfolio_technology_op(user_id: i32, resume_id: i32, project_id: i32) -> crate::operation::OpView {
    start(Some(user_id), create_portfolio_technology_plan(resume_id, project_id), Finish::Row)
}

/// Adds a technology to a portfolio project of a resume that the signed-in user owns; the
/// result is the inserted row.
pub fn create_portfolio_technology(user_id: i32, resume_id: i32, project_id: i32) -> (op: Operation)
    ensures
        op.wf(),
        op@ == create_portfolio_technology_op(user_id, resume_id, project_id),
        guards_writes(op@.plan),
{
    let mut steps: Vec<Step> = Vec::new();
    steps.push(Step::Fetch { table: Table::Resumes, id: IdSource::Given(resume_id), in_resume: None, on_failure: OnFailure::Generic });
    steps.push(Step::RequireOwner { resume_step: 0 });
    steps.push(Step::Fetch { table: Table::PortfolioProjects, id: IdSource::Given(project_id), in_resume: Some(resume_id), on_failure: OnFailure::Generic });
    steps.push(Step::Insert { table: Table::PortfolioTechnologies, on_failure: OnFailure::Generic });
    let ghost plan = steps@.map_values(|s: Step| s@);
    assert(plan[0] == steps@[0]@);
    assert(plan[1] == steps@[1]@);
    assert(plan[2] == steps@[2]@);
    assert(plan[3] == steps@[3]@);
    assert(plan =~= create_portfolio_technology_plan(resume_id, project_id));
    assert forall|w: int| 0 <= w < plan.len() && is_write(#[trigger] plan[w]) implies exists|k: int| 0 <= k < w && #[trigger] plan[k] is RequireOwner by {
        assert(plan[1] is RequireOwner);
    }
    Operation::new(Some(user_id), steps, Finish::Row)
}

/// Fetch the portfolio project and its resume, check ownership, update the portfolio project.
pub open spec fn update_portfolio_project_plan(project_id: i32) -> Seq<StepView> {
    seq![
        StepView::Fetch { table: Table::PortfolioProjects, id: IdSource::Given(project_id), in_resume: None, on_failure: FailureRule::Generic },
        StepView::Fetch { table: Table::Resumes, id: IdSource::ParentOf(0), in_resume: None, on_failure: FailureRule::Generic },
        StepView::RequireOwner { resume_step: 1 },
        StepView::Update { table: Table::PortfolioProjects, id: IdSource::Given(project_id), on_failure: FailureRule::Generic },
    ]
}

/// The state in which [`update_portfolio_project`] starts.
pub open spec fn update_portfolio_project_op(user_id: i32, project_id: i32) -> crate::operation::OpView {
    start(Some(user_id), update_portfolio_project_plan(project_id), Finish::Row)
}

/// Changes a portfolio project of a resume that the signed-in user owns; the result is
/// the updated row.
pub fn update_portfolio_project(user_id: i32, project_id: i32) -> (op: Operation)
    ensures
        op.wf(),
        op@ == update_portfolio_project_op(user_id, project_id),
        guards_writes(op@.plan),
{
    let mut steps: Vec<Step> = Vec::new();
    steps.push(Step::Fetch { table: Table::PortfolioProjects, id: IdSource::Given(project_id), in_resume: None, on_failure: OnFailure::Generic });
    steps.push(Step::Fetch { table: Table::Resumes, id: IdSource::ParentOf(0), in_resume: None, on_failure: OnFailure::Generic });
    steps.push(Step::RequireOwner { resume_step: 1 });
    steps.push(Step::Update { table: Table::PortfolioProjects, id: IdSource::Given(project_id), on_failure: OnFailure::Generic });
    let ghost plan = steps@.map_values(|s: Step| s@);
    assert(plan[0] == steps@[0]@);
    assert(plan[1] == steps@[1]@);
    assert(plan[2] == steps@[2]@);
    assert(plan[3] == steps@[3]@);
    assert(plan =~= update_portfolio_project_plan(project_id));
    assert forall|w: int| 0 <= w < plan.len() && is_write(#[trigger] plan[w]) implies exists|k: int| 0 <= k < w && #[trigger] plan[k] is RequireOwner by {
        assert(plan[2] is RequireOwner);
    }
    Operation::new(Some(user_id), steps, Finish::Row)
}

/// Fetch the key point, its portfolio project and their resume, check ownership, update the key point.
pub open spec fn update_portfolio_key_point_plan(key_point_id: i32) -> Seq<StepView> {
    seq![
        StepView::Fetch { table: Table::PortfolioKeyPoints, id: IdSource::Given(key_point_id), in_resume: None, on_failure: FailureRule::Generic },
        StepView::Fetch { table: Table::PortfolioProjects, id: IdSource::ParentOf(0), in_resume: None, on_failure: FailureRule::MissingElseGeneric("Portfolio project not found"@) },
        StepView::Fetch { table: Table::Resumes, id: IdSource::ParentOf(1), in_resume: None, on_failure: FailureRule::Generic },
        StepView::RequireOwner { resume_step: 2 },
        StepView::Update { table: Table::PortfolioKeyPoints, id: IdSource::Given(key_point_id), on_failure: FailureRule::Generic },
    ]
}

/// The state in which [`update_portfolio_key_point`] starts.
pub open spec fn update_portfolio_key_point_op(user_id: i32, key_point_id: i32) -> crate::operation::OpView {
    start(Some(user_id), update_portfolio_key_point_plan(key_point_id), Finish::RowAndParentOf(1))
}

/// Changes a key point of a resume that the signed-in user owns; the result is
/// the updated row and the id of the resume.
pub fn update_portfolio_key_point(user_id: i32, key_point_id: i32) -> (op: Operation)
    ensures
        op.wf(),
        op@ == update_portfolio_key_point_op(user_id, key_point_id),
        guards_writes(op@.plan),
{
    let mut steps: Vec<Step> = Vec::new();
    steps.push(Step::Fetch { table: Table::PortfolioKeyPoints, id: IdSource::Given(key_point_id), in_resume: None, on_failure: OnFailure::Generic });
    steps.push(Step::Fetch { table: Table::PortfolioProjects, id: IdSource::ParentOf(0), in_resume: None, on_failure: OnFailure::MissingElseGeneric(String::from_str("Portfolio project not found")) });
    steps.push(Step::Fetch { table: Table::Resumes, id: IdSource::ParentOf(1), in_resume: None, on_failure: OnFailure::Generic });
    steps.push(Step::RequireOwner { resume_step: 2 });
    steps.push(Step::Update { table: Table::PortfolioKeyPoints, id: IdSource::Given(key_point_id), on_failure: OnFailure::Generic });
    let ghost plan = steps@.map_values(|s: Step| s@);
    assert(plan[0] == steps@[0]@);
    assert(plan[1] == steps@[1]@);
    assert(plan[2] == steps@[2]@);
    assert(plan[3] == steps@[3]@);
    assert(plan[4] == steps@[4]@);
    assert(plan =~= update_portfolio_key_point_plan(key_point_id));
    assert forall|w: int| 0 <= w < plan.len() && is_write(#[trigger] plan[w]) implies exists|k: int| 0 <= k < w && #[trigger] plan[k] is RequireOwner by {
        assert(plan[3] is RequireOwner);
    }
    Operation::new(Some(user_id), steps, Finish::RowAndParentOf(1))
}

/// Fetch the technology, its portfolio project and their resume, check ownership, update the technology.
pub open spec fn update_portfolio_technology_plan(tech_id: i32) -> Seq<StepView> {
    seq![
        StepView::Fetch { table: Table::PortfolioTechnologies, id: IdSource::Given(tech_id), in_resume: None, on_failure: FailureRule::Generic },
        StepView::Fetch { table: Table::PortfolioProjects, id: IdSource::ParentOf(0), in_resume: None, on_failure: FailureRule::Generic },
        StepView::Fetch { table: Table::Resumes, id: IdSource::ParentOf(1), in_resume: None, on_failure: FailureRule::Generic },
        StepView::RequireOwner { resume_step: 2 },
        StepView::Update { table: Table::PortfolioTechnologies, id: IdSource::Given(tech_id), on_failure: FailureRule::MissingElseGeneric("Portfolio technology with id "@ + int_text(tech_id as int) + " not found"@) },
    ]
}

/// The state in which [`update_portfolio_technology`] starts.
pub open spec fn update_portfolio_technology_op(user_id: i32, tech_id: i32) -> crate::operation::OpView {
    start(Some(user_id), update_portfolio_technology_plan(tech_id), Finish::RowAndParentOf(1))
}

/// Changes a technology of a resume that the signed-in user owns; the result is
/// the updated row and the id of the resume.
pub fn update_portfolio_technology(user_id: i32, tech_id: i32) -> (op: Operation)
    ensures
        op.wf(),
        op@ == update_portfolio_technology_op(user_id, tech_id),
        guards_writes(op@.plan),
{
    let mut steps: Vec<Step> = Vec::new();
    steps.push(Step::Fetch { table: Table::PortfolioTechnologies, id: IdSource::Given(tech_id), in_resume: None, on_failure: OnFailure::Generic });
    steps.push(Step::Fetch { table: Table::PortfolioProjects, id: IdSource::ParentOf(0), in_resume: None, on_failure: OnFailure::Generic });
    steps.push(Step::Fetch { table: Table::Resumes, id: IdSource::ParentOf(1), in_resume: None, on_failure: OnFailure::Generic });
    steps.push(Step::RequireOwner { resume_step: 2 });
    steps.push(Step::Update { table: Table::PortfolioTechnologies, id: IdSource::Given(tech_id), on_failure: OnFailure::MissingElseGeneric(message_with_id("Portfolio technology with id ", tech_id, " not found")) });
    let ghost plan = steps@.map_values(|s: Step| s@);
    assert(plan[0] == steps@[0]@);
    assert(plan[1] == steps@[1]@);
    assert(plan[2] == steps@[2]@);
    assert(plan[3] == steps@[3]@);
    assert(plan[4] == steps@[4]@);
    assert(plan =~= update_portfolio_technology_plan(tech_id));
    assert forall|w: int| 0 <= w < plan.len() && is_write(#[trigger] plan[w]) implies exists|k: int| 0 <= k < w && #[trigger] plan[k] is RequireOwner by {
        assert(plan[3] is RequireOwner);
    }
    Operation::new(Some(user_id), steps, Finish::RowAndParentOf(1))
}

/// Fetch the portfolio project and its resume, check ownership, delete the portfolio project.
pub open spec fn delete_portfolio_project_plan(project_id: i32) -> Seq<StepView> {
    seq![
        StepView::Fetch { table: Table::PortfolioProjects, id: IdSource::Given(project_id), in_resume: None, on_failure: FailureRule::Generic },
        StepView::Fetch { table: Table::Resumes, id: IdSource::ParentOf(0), in_resume: None, on_failure: FailureRule::Generic },
        StepView::RequireOwner { resume_step: 1 },
        StepView::Delete { table: Table::PortfolioProjects, id: IdSource::Given(project_id), on_failure: FailureRule::Generic, nothing_deleted: "Portfolio project with id "@ + int_text(project_id as int) + " not found"@ },
    ]
}

/// The state in which [`delete_portfolio_project`] starts.
pub open spec fn delete_portfolio_project_op(user_id: i32, project_id: i32) -> crate::operation::OpView {
    start(Some(user_id), delete_portfolio_project_plan(project_id), Finish::ParentOf(0))
}

/// Removes a portfolio project from a resume that the signed-in user owns; the result is the id of the resume.
pub fn delete_portfolio_project(user_id: i32, project_id: i32) -> (op: Operation)
    ensures
        op.wf(),
        op@ == delete_portfolio_project_op(user_id, project_id),
        guards_writes(op@.plan),
{
    let mut steps: Vec<Step> = Vec::new();
    steps.push(Step::Fetch { table: Table::PortfolioProjects, id: IdSource::Given(project_id), in_resume: None, on_failure: OnFailure::Generic });
    steps.push(Step::Fetch { table: Table::Resumes, id: IdSource::ParentOf(0), in_resume: None, on_failure: OnFailure::Generic });
    steps.push(Step::RequireOwner { resume_step: 1 });
    steps.push(Step::Delete { table: Table::PortfolioProjects, id: IdSource::Given(project_id), on_failure: OnFailure::Generic, nothing_deleted: message_with_id("Portfolio project with id ", project_id, " not found") });
    let ghost plan = steps@.map_values(|s: Step| s@);
    assert(plan[0] == steps@[0]@);
    assert(plan[1] == steps@[1]@);
    assert(plan[2] == steps@[2]@);
    assert(plan[3] == steps@[3]@);
    assert(plan =~= delete_portfolio_project_plan(project_id));
    assert forall|w: int| 0 <= w < plan.len() && is_write(#[trigger] plan[w]) implies exists|k: int| 0 <= k < w && #[trigger] plan[k] is RequireOwner by {
        assert(plan[2] is RequireOwner);
    }
    Operation::new(Some(user_id), steps, Finish::ParentOf(0))
}

/// Fetch the key point, its portfolio project and their resume, check ownership, delete the key point.
pub open spec fn delete_portfolio_key_point_plan(key_point_id: i32) -> Seq<StepView> {
    seq![
        StepView::Fetch { table: Table::PortfolioKeyPoints, id: IdSource::Given(key_point_id), in_resume: None, on_failure: FailureRule::MissingElseGeneric("Portfolio key point with id "@ + int_text(key_point_id as int) + " not found"@) },
        StepView::Fetch { table: Table::PortfolioProjects, id: IdSource::ParentOf(0), in_resume: None, on_failure: FailureRule::MissingElseGeneric("Portfolio project not found"@) },
        StepView::Fetch { table: Table::Resumes, id: IdSource::ParentOf(1), in_resume: None, on_failure: FailureRule::Generic },
        StepView::RequireOwner { resume_step: 2 },
        StepView::Delete { table: Table::PortfolioKeyPoints, id: IdSource::Given(key_point_id), on_failure: FailureRule::Generic, nothing_deleted: "Portfolio key point with id "@ + int_text(key_point_id as int) + " not found"@ },
    ]
}

/// The state in which [`delete_portfolio_key_point`] starts.
pub open spec fn delete_portfolio_key_point_op(user_id: i32, key_point_id: i32) -> crate::operation::OpView {
    start(Some(user_id), delete_portfolio_key_point_plan(key_point_id), Finish::ParentOf(1))
}

/// Removes a key point from a resume that the signed-in user owns; the result is the id of the resume.
pub fn delete_portfolio_key_point(user_id: i32, key_point_id: i32) -> (op: Operation)
    ensures
        op.wf(),
        op@ == delete_portfolio_key_point_op(user_id, key_point_id),
        guards_writes(op@.plan),
{
    let mut steps: Vec<Step> = Vec::new();
    steps.push(Step::Fetch { table: Table::PortfolioKeyPoints, id: IdSource::Given(key_point_id), in_resume: None, on_failure: OnFailure::MissingElseGeneric(message_with_id("Portfolio key point with id ", key_point_id, " not found")) });
    steps.push(Step::Fetch { table: Table::PortfolioProjects, id: IdSource::ParentOf(0), in_resume: None, on_failure: OnFailure::MissingElseGeneric(String::from_str("Portfolio project not found")) });
    steps.push(Step::Fetch { table: Table::Resumes, id: IdSource::ParentOf(1), in_resume: None, on_failure: OnFailure::Generic });
    steps.push(Step::RequireOwner { resume_step: 2 });
    steps.push(Step::Delete { table: Table::PortfolioKeyPoints, id: IdSource::Given(key_point_id), on_failure: OnFailure::Generic, nothing_deleted: message_with_id("Portfolio key point with id ", key_point_id, " not found") });
    let ghost plan = steps@.map_values(|s: Step| s@);
    assert(plan[0] == steps@[0]@);
    assert(plan[1] == steps@[1]@);
    assert(plan[2] == steps@[2]@);
    assert(plan[3] == steps@[3]@);
    assert(plan[4] == steps@[4]@);
    assert(plan =~= delete_portfolio_key_point_plan(key_point_id));
    assert forall|w: int| 0 <= w < plan.len() && is_write(#[trigger] plan[w]) implies exists|k: int| 0 <= k < w && #[trigger] plan[k] is RequireOwner by {
        assert(plan[3] is RequireOwner);
    }
    Operation::new(Some(user_id), steps, Finish::ParentOf(1))
}

/// Fetch the technology, its portfolio project and their resume, check ownership, delete the technology.
pub open spec fn delete_portfolio_technology_plan(tech_id: i32) -> Seq<StepView> {
    seq![
        StepView::Fetch { table: Table::PortfolioTechnologies, id: IdSource::Given(tech_id), in_resume: None, on_failure: FailureRule::MissingElseGeneric("Portfolio technology with id "@ + int_text(tech_id as int) + " not found"@) },
        StepView::Fetch { table: Table::PortfolioProjects, id: IdSource::ParentOf(0), in_resume: None, on_failure: FailureRule::MissingElseGeneric("Portfolio project not found"@) },
        StepView::Fetch { table: Table::Resumes, id: IdSource::ParentOf(1), in_resume: None, on_failure: FailureRule::Generic },
        StepView::RequireOwner { resume_step: 2 },
        StepView::Delete { table: Table::PortfolioTechnologies, id: IdSource::Given(tech_id), on_failure: FailureRule::Generic, nothing_deleted: "Portfolio technology with id "@ + int_text(tech_id as int) + " not found"@ },
    ]
}

/// The state in which [`delete_portfolio_technology`] starts.
pub open spec fn delete_portfolio_technology_op(user_id: i32, tech_id: i32) -> crate::operation::OpView {
    start(Some(user_id), delete_portfolio_technology_plan(tech_id), Finish::ParentOf(1))
}

/// Removes a technology from a resume that the signed-in user owns; the result is the id of the resume.
pub fn delete_portfolio_technology(user_id: i32, tech_id: i32) -> (op: Operation)
    ensures
        op.wf(),
        op@ == delete_portfolio_technology_op(user_id, tech_id),
        guards_writes(op@.plan),
{
    let mut steps: Vec<Step> = Vec::new();
    steps.push(Step::Fetch { table: Table::PortfolioTechnologies, id: IdSource::Given(tech_id), in_resume: None, on_failure: OnFailure::MissingElseGeneric(message_with_id("Portfolio technology with id ", tech_id, " not found")) });
    steps.push(Step::Fetch { table: Table::PortfolioProjects, id: IdSource::ParentOf(0), in_resume: None, on_failure: OnFailure::MissingElseGeneric(String::from_str("Portfolio project not found")) });
    steps.push(Step::Fetch { table: Table::Resumes, id: IdSource::ParentOf(1), in_resume: None, on_failure: OnFailure::Generic });
    steps.push(Step::RequireOwner { resume_step: 2 });
    steps.push(Step::Delete { table: Table::PortfolioTechnologies, id: IdSource::Given(tech_id), on_failure: OnFailure::Generic, nothing_deleted: message_with_id("Portfolio technology with id ", tech_id, " not found") });
    let ghost plan = steps@.map_values(|s: Step| s@);
    assert(plan[0] == steps@[0]@);
    assert(plan[1] == steps@[1]@);
    assert(plan[2] == steps@[2]@);
    assert(plan[3] == steps@[3]@);
    assert(plan[4] == steps@[4]@);
    assert(plan =~= delete_portfolio_technology_plan(tech_id));
    assert forall|w: int| 0 <= w < plan.len() && is_write(#[trigger] plan[w]) implies exists|k: int| 0 <= k < w && #[trigger] plan[k] is RequireOwner by {
        assert(plan[3] is RequireOwner);
    }
    Operation::new(Some(user_id), steps, Finish::ParentOf(1))
}
/// Listing: once the resume named by `resume_id` is found public or the caller's, the rows loaded are those whose parent is `resume_id`, and loading them finishes the request.
pub proof fn lemma_list_portfolio_projects_loads_the_named_parent(resume_id: i32, user_id: Option<i32>, created_by: Option<i32>, is_public: bool)
    requires
        is_public || (user_id is Some && created_by == user_id),
    ensures
        crate::operation::request_of(list_portfolio_projects_op(resume_id, user_id)) == Some(crate::operation::DbRequest::Fetch { table: crate::operation::Table::Resumes, id: resume_id, in_resume: None }),
        crate::operation::request_of(crate::operation::after_reply(list_portfolio_projects_op(resume_id, user_id), crate::operation::ReplyView::Found(crate::operation::RowRef::Resume { created_by: created_by, is_public: is_public }))) == Some(crate::operation::DbRequest::Load { table: crate::operation::Table::PortfolioProjects, parent_id: resume_id }),
        crate::operation::after_reply(crate::operation::after_reply(list_portfolio_projects_op(resume_id, user_id), crate::operation::ReplyView::Found(crate::operation::RowRef::Resume { created_by: created_by, is_public: is_public })), crate::operation::ReplyView::Loaded).result == Some(Ok::<crate::operation::Outcome, crate::error::AppErr>(crate::operation::Outcome::Rows)),
{
    reveal_with_fuel(crate::operation::settle, 4);
}

/// Listing: once the resume named by `resume_id` is found public or the caller's, and `project_id` is found among its rows, the rows loaded are those whose parent is `project_id`, and loading them finishes the request.
pub proof fn lemma_list_portfolio_key_points_loads_the_named_parent(resume_id: i32, project_id: i32, user_id: Option<i32>, created_by: Option<i32>, is_public: bool)
    requires
        is_public || (user_id is Some && created_by == user_id),
    ensures
        crate::operation::request_of(list_portfolio_key_points_op(resume_id, project_id, user_id)) == Some(crate::operation::DbRequest::Fetch { table: crate::operation::Table::Resumes, id: resume_id, in_resume: None }),
        crate::operation::request_of(crate::operation::after_reply(list_portfolio_key_points_op(resume_id, project_id, user_id), crate::operation::ReplyView::Found(crate::operation::RowRef::Resume { created_by: created_by, is_public: is_public }))) == Some(crate::operation::DbRequest::Fetch { table: crate::operation::Table::PortfolioProjects, id: project_id, in_resume: Some(resume_id) }),
        crate::operation::request_of(crate::operation::after_reply(crate::operation::after_reply(list_portfolio_key_points_op(resume_id, project_id, user_id), crate::operation::ReplyView::Found(crate::operation::RowRef::Resume { created_by: created_by, is_public: is_public })), crate::operation::ReplyView::Found(crate::operation::RowRef::Child { parent: resume_id }))) == Some(crate::operation::DbRequest::Load { table: crate::operation::Table::PortfolioKeyPoints, parent_id: project_id }),
        crate::operation::after_reply(crate::operation::after_reply(crate::operation::after_reply(list_portfolio_key_points_op(resume_id, project_id, user_id), crate::operation::ReplyView::Found(crate::operation::RowRef::Resume { created_by: created_by, is_public: is_public })), crate::operation::ReplyView::Found(crate::operation::RowRef::Child { parent: resume_id })), crate::operation::ReplyView::Loaded).result == Some(Ok::<crate::operation::Outcome, crate::error::AppErr>(crate::operation::Outcome::Rows)),
{
    reveal_with_fuel(crate::operation::settle, 4);
}

/// Listing: once the resume named by `resume_id` is found public or the caller's, and `project_id` is found among its rows, the rows loaded are those whose parent is `project_id`, and loading them finishes the request.
pub proof fn lemma_list_portfolio_technologies_loads_the_named_parent(resume_id: i32, project_id: i32, user_id: Option<i32>, created_by: Option<i32>, is_public: bool)
    requires
        is_public || (user_id is Some && created_by == user_id),
    ensures
        crate::operation::request_of(list_portfolio_technologies_op(resume_id, project_id, user_id)) == Some(crate::operation::DbRequest::Fetch { table: crate::operation::Table::Resumes, id: resume_id, in_resume: None }),
        crate::operation::request_of(crate::operation::after_reply(list_portfolio_technologies_op(resume_id, project_id, user_id), crate::operation::ReplyView::Found(crate::operation::RowRef::Resume { created_by: created_by, is_public: is_public }))) == Some(crate::operation::DbRequest::Fetch { table: crate::operation::Table::PortfolioProjects, id: project_id, in_resume: Some(resume_id) }),
        crate::operation::request_of(crate::operation::after_reply(crate::operation::after_reply(list_portfolio_technologies_op(resume_id, project_id, user_id), crate::operation::ReplyView::Found(crate::operation::RowRef::Resume { created_by: created_by, is_public: is_public })), crate::operation::ReplyView::Found(crate::operation::RowRef::Child { parent: resume_id }))) == Some(crate::operation::DbRequest::Load { table: crate::operation::Table::PortfolioTechnologies, parent_id: project_id }),
        crate::operation::after_reply(crate::operation::after_reply(crate::operation::after_reply(list_portfolio_technologies_op(resume_id, project_id, user_id), crate::operation::ReplyView::Found(crate::operation::RowRef::Resume { created_by: created_by, is_public: is_public })), crate::operation::ReplyView::Found(crate::operation::RowRef::Child { parent: resume_id })), crate::operation::ReplyView::Loaded).result == Some(Ok::<crate::operation::Outcome, crate::error::AppErr>(crate::operation::Outcome::Rows)),
{
    reveal_with_fuel(crate::operation::settle, 4);
}

/// Adding a portfolio project: the resume named by `resume_id` is fetched; only then is the insert requested, and a successful insert finishes the request.
pub proof fn lemma_create_portfolio_project_inserts_into_the_named_resume(user_id: i32, resume_id: i32, is_public: bool)
    ensures
        crate::operation::request_of(create_portfolio_project_op(user_id, resume_id)) == Some(crate::operation::DbRequest::Fetch { table: crate::operation::Table::Resumes, id: resume_id, in_resume: None }),
        crate::operation::request_of(crate::operation::after_reply(create_portfolio_project_op(user_id, resume_id), crate::operation::ReplyView::Found(crate::operation::RowRef::Resume { created_by: Some(user_id), is_public: is_public }))) == Some(crate::operation::DbRequest::Insert { table: crate::operation::Table::PortfolioProjects }),
        crate::operation::after_reply(crate::operation::after_reply(create_portfolio_project_op(user_id, resume_id), crate::operation::ReplyView::Found(crate::operation::RowRef::Resume { created_by: Some(user_id), is_public: is_public })), crate::operation::ReplyView::Written).result == Some(Ok::<crate::operation::Outcome, crate::error::AppErr>(crate::operation::Outcome::Row)),
{
    reveal_with_fuel(crate::operation::settle, 4);
}

/// Adding a portfolio key point: the resume named by `resume_id` is fetched, and once it is the caller's, the PortfolioProjects row `project_id` of that same resume; only then is the insert requested, and a successful insert finishes the request.
pub proof fn lemma_create_portfolio_key_point_inserts_into_the_named_resume(user_id: i32, resume_id: i32, project_id: i32, is_public: bool)
    ensures
        crate::operation::request_of(create_portfolio_key_point_op(user_id, resume_id, project_id)) == Some(crate::operation::DbRequest::Fetch { table: crate::operation::Table::Resumes, id: resume_id, in_resume: None }),
        crate::operation::request_of(crate::operation::after_reply(create_portfolio_key_point_op(user_id, resume_id, project_id), crate::operation::ReplyView::Found(crate::operation::RowRef::Resume { created_by: Some(user_id), is_public: is_public }))) == Some(crate::operation::DbRequest::Fetch { table: crate::operation::Table::PortfolioProjects, id: project_id, in_resume: Some(resume_id) }),
        crate::operation::request_of(crate::operation::after_reply(crate::operation::after_reply(create_portfolio_key_point_op(user_id, resume_id, project_id), crate::operation::ReplyView::Found(crate::operation::RowRef::Resume { created_by: Some(user_id), is_public: is_public })), crate::operation::ReplyView::Found(crate::operation::RowRef::Child { parent: resume_id }))) == Some(crate::operation::DbRequest::Insert { table: crate::operation::Table::PortfolioKeyPoints }),
        crate::operation::after_reply(crate::operation::after_reply(crate::operation::after_reply(create_portfolio_key_point_op(user_id, resume_id, project_id), crate::operation::ReplyView::Found(crate::operation::RowRef::Resume { created_by: Some(user_id), is_public: is_public })), crate::operation::ReplyView::Found(crate::operation::RowRef::Child { parent: resume_id })), crate::operation::ReplyView::Written).result == Some(Ok::<crate::operation::Outcome, crate::error::AppErr>(crate::operation::Outcome::Row)),
{
    reveal_with_fuel(crate::operation::settle, 4);
}

/// Adding a portfolio technology: the resume named by `resume_id` is fetched, and once it is the caller's, the PortfolioProjects row `project_id` of that same resume; only then is the insert requested, and a successful insert finishes the request.
pub proof fn lemma_create_portfolio_technology_inserts_into_the_named_resume(user_id: i32, resume_id: i32, project_id: i32, is_public: bool)
    ensures
        crate::operation::request_of(create_portfolio_technology_op(user_id, resume_id, project_id)) == Some(crate::operation::DbRequest::Fetch { table: crate::operation::Table::Resumes, id: resume_id, in_resume: None }),
        crate::operation::request_of(crate::operation::after_reply(create_portfolio_technology_op(user_id, resume_id, project_id), crate::operation::ReplyView::Found(crate::operation::RowRef::Resume { created_by: Some(user_id), is_public: is_public }))) == Some(crate::operation::DbRequest::Fetch { table: crate::operation::Table::PortfolioProjects, id: project_id, in_resume: Some(resume_id) }),
        crate::operation::request_of(crate::operation::after_reply(crate::operation::after_reply(create_portfolio_technology_op(user_id, resume_id, project_id), crate::operation::ReplyView::Found(crate::operation::RowRef::Resume { created_by: Some(user_id), is_public: is_public })), crate::operation::ReplyView::Found(crate::operation::RowRef::Child { parent: resume_id }))) == Some(crate::operation::DbRequest::Insert { table: crate::operation::Table::PortfolioTechnologies }),
        crate::operation::after_reply(crate::operation::after_reply(crate::operation::after_reply(create_portfolio_technology_op(user_id, resume_id, project_id), crate::operation::ReplyView::Found(crate::operation::RowRef::Resume { created_by: Some(user_id), is_public: is_public })), crate::operation::ReplyView::Found(crate::operation::RowRef::Child { parent: resume_id })), crate::operation::ReplyView::Written).result == Some(Ok::<crate::operation::Outcome, crate::error::AppErr>(crate::operation::Outcome::Row)),
{
    reveal_with_fuel(crate::operation::settle, 4);
}

/// Updating a portfolio project: the portfolio project named by `project_id` is fetched, then the resume it belongs to; once that resume is found to be the caller's, the update is requested for exactly `project_id`, and a successful write finishes the request.
pub proof fn lemma_update_portfolio_project_acts_on_the_named_row(user_id: i32, project_id: i32, resume_id: i32, is_public: bool)
    ensures
        crate::operation::request_of(update_portfolio_project_op(user_id, project_id)) == Some(crate::operation::DbRequest::Fetch { table: crate::operation::Table::PortfolioProjects, id: project_id, in_resume: None }),
        crate::operation::request_of(crate::operation::after_reply(update_portfolio_project_op(user_id, project_id), crate::operation::ReplyView::Found(crate::operation::RowRef::Child { parent: resume_id }))) == Some(crate::operation::DbRequest::Fetch { table: crate::operation::Table::Resumes, id: resume_id, in_resume: None }),
        crate::operation::request_of(crate::operation::after_reply(crate::operation::after_reply(update_portfolio_project_op(user_id, project_id), crate::operation::ReplyView::Found(crate::operation::RowRef::Child { parent: resume_id })), crate::operation::ReplyView::Found(crate::operation::RowRef::Resume { created_by: Some(user_id), is_public: is_public }))) == Some(crate::operation::DbRequest::Update { table: crate::operation::Table::PortfolioProjects, id: project_id }),
        crate::operation::after_reply(crate::operation::after_reply(crate::operation::after_reply(update_portfolio_project_op(user_id, project_id), crate::operation::ReplyView::Found(crate::operation::RowRef::Child { parent: resume_id })), crate::operation::ReplyView::Found(crate::operation::RowRef::Resume { created_by: Some(user_id), is_public: is_public })), crate::operation::ReplyView::Written).result == Some(Ok::<crate::operation::Outcome, crate::error::AppErr>(crate::operation::Outcome::Row)),
{
    reveal_with_fuel(crate::operation::settle, 4);
}

/// Updating a portfolio key point: the portfolio key point named by `key_point_id` is fetched, then the resume it belongs to; once that resume is found to be the caller's, the update is requested for exactly `key_point_id`, and a successful write finishes the request.
pub proof fn lemma_update_portfolio_key_point_acts_on_the_named_row(user_id: i32, key_point_id: i32, parent_id: i32, resume_id: i32, is_public: bool)
    ensures
        crate::operation::request_of(update_portfolio_key_point_op(user_id, key_point_id)) == Some(crate::operation::DbRequest::Fetch { table: crate::operation::Table::PortfolioKeyPoints, id: key_point_id, in_resume: None }),
        crate::operation::request_of(crate::operation::after_reply(update_portfolio_key_point_op(user_id, key_point_id), crate::operation::ReplyView::Found(crate::operation::RowRef::Child { parent: parent_id }))) == Some(crate::operation::DbRequest::Fetch { table: crate::operation::Table::PortfolioProjects, id: parent_id, in_resume: None }),
        crate::operation::request_of(crate::operation::after_reply(crate::operation::after_reply(update_portfolio_key_point_op(user_id, key_point_id), crate::operation::ReplyView::Found(crate::operation::RowRef::Child { parent: parent_id })), crate::operation::ReplyView::Found(crate::operation::RowRef::Child { parent: resume_id }))) == Some(crate::operation::DbRequest::Fetch { table: crate::operation::Table::Resumes, id: resume_id, in_resume: None }),
        crate::operation::request_of(crate::operation::after_reply(crate::operation::after_reply(crate::operation::after_reply(update_portfolio_key_point_op(user_id, key_point_id), crate::operation::ReplyView::Found(crate::operation::RowRef::Child { parent: parent_id })), crate::operation::ReplyView::Found(crate::operation::RowRef::Child { parent: resume_id })), crate::operation::ReplyView::Found(crate::operation::RowRef::Resume { created_by: Some(user_id), is_public: is_public }))) == Some(crate::operation::DbRequest::Update { table: crate::operation::Table::PortfolioKeyPoints, id: key_point_id }),
        crate::operation::after_reply(crate::operation::after_reply(crate::operation::after_reply(crate::operation::after_reply(update_portfolio_key_point_op(user_id, key_point_id), crate::operation::ReplyView::Found(crate::operation::RowRef::Child { parent: parent_id })), crate::operation::ReplyView::Found(crate::operation::RowRef::Child { parent: resume_id })), crate::operation::ReplyView::Found(crate::operation::RowRef::Resume { created_by: Some(user_id), is_public: is_public })), crate::operation::ReplyView::Written).result == Some(Ok::<crate::operation::Outcome, crate::error::AppErr>(crate::operation::Outcome::RowAndResumeId(resume_id))),
{
    reveal_with_fuel(crate::operation::settle, 4);
}

/// Updating a portfolio technology: the portfolio technology named by `tech_id` is fetched, then the resume it belongs to; once that resume is found to be the caller's, the update is requested for exactly `tech_id`, and a successful write finishes the request.
pub proof fn lemma_update_portfolio_technology_acts_on_the_named_row(user_id: i32, tech_id: i32, parent_id: i32, resume_id: i32, is_public: bool)
    ensures
        crate::operation::request_of(update_portfolio_technology_op(user_id, tech_id)) == Some(crate::operation::DbRequest::Fetch { table: crate::operation::Table::PortfolioTechnologies, id: tech_id, in_resume: None }),
        crate::operation::request_of(crate::operation::after_reply(update_portfolio_technology_op(user_id, tech_id), crate::operation::ReplyView::Found(crate::operation::RowRef::Child { parent: parent_id }))) == Some(crate::operation::DbRequest::Fetch { table: crate::operation::Table::PortfolioProjects, id: parent_id, in_resume: None }),
        crate::operation::request_of(crate::operation::after_reply(crate::operation::after_reply(update_portfolio_technology_op(user_id, tech_id), crate::operation::ReplyView::Found(crate::operation::RowRef::Child { parent: parent_id })), crate::operation::ReplyView::Found(crate::operation::RowRef::Child { parent: resume_id }))) == Some(crate::operation::DbRequest::Fetch { table: crate::operation::Table::Resumes, id: resume_id, in_resume: None }),
        crate::operation::request_of(crate::operation::after_reply(crate::operation::after_reply(crate::operation::after_reply(update_portfolio_technology_op(user_id, tech_id), crate::operation::ReplyView::Found(crate::operation::RowRef::Child { parent: parent_id })), crate::operation::ReplyView::Found(crate::operation::RowRef::Child { parent: resume_id })), crate::operation::ReplyView::Found(crate::operation::RowRef::Resume { created_by: Some(user_id), is_public: is_public }))) == Some(crate::operation::DbRequest::Update { table: crate::operation::Table::PortfolioTechnologies, id: tech_id }),
        crate::operation::after_reply(crate::operation::after_reply(crate::operation::after_reply(crate::operation::after_reply(update_portfolio_technology_op(user_id, tech_id), crate::operation::ReplyView::Found(crate::operation::RowRef::Child { parent: parent_id })), crate::operation::ReplyView::Found(crate::operation::RowRef::Child { parent: resume_id })), crate::operation::ReplyView::Found(crate::operation::RowRef::Resume { created_by: Some(user_id), is_public: is_public })), crate::operation::ReplyView::Written).result == Some(Ok::<crate::operation::Outcome, crate::error::AppErr>(crate::operation::Outcome::RowAndResumeId(resume_id))),
{
    reveal_with_fuel(crate::operation::settle, 4);
}

/// Deleting a portfolio project: the portfolio project named by `project_id` is fetched, then the resume it belongs to; once that resume is found to be the caller's, the delete is requested for exactly `project_id`, and removing a row finishes the request, reporting that resume.
pub proof fn lemma_delete_portfolio_project_acts_on_the_named_row(user_id: i32, project_id: i32, resume_id: i32, is_public: bool, deleted: u64)
    requires
        deleted > 0,
    ensures
        crate::operation::request_of(delete_portfolio_project_op(user_id, project_id)) == Some(crate::operation::DbRequest::Fetch { table: crate::operation::Table::PortfolioProjects, id: project_id, in_resume: None }),
        crate::operation::request_of(crate::operation::after_reply(delete_portfolio_project_op(user_id, project_id), crate::operation::ReplyView::Found(crate::operation::RowRef::Child { parent: resume_id }))) == Some(crate::operation::DbRequest::Fetch { table: crate::operation::Table::Resumes, id: resume_id, in_resume: None }),
        crate::operation::request_of(crate::operation::after_reply(crate::operation::after_reply(delete_portfolio_project_op(user_id, project_id), crate::operation::ReplyView::Found(crate::operation::RowRef::Child { parent: resume_id })), crate::operation::ReplyView::Found(crate::operation::RowRef::Resume { created_by: Some(user_id), is_public: is_public }))) == Some(crate::operation::DbRequest::Delete { table: crate::operation::Table::PortfolioProjects, id: project_id }),
        crate::operation::after_reply(crate::operation::after_reply(crate::operation::after_reply(delete_portfolio_project_op(user_id, project_id), crate::operation::ReplyView::Found(crate::operation::RowRef::Child { parent: resume_id })), crate::operation::ReplyView::Found(crate::operation::RowRef::Resume { created_by: Some(user_id), is_public: is_public })), crate::operation::ReplyView::Deleted(deleted)).result == Some(Ok::<crate::operation::Outcome, crate::error::AppErr>(crate::operation::Outcome::ResumeId(resume_id))),
{
    reveal_with_fuel(crate::operation::settle, 4);
}

/// Deleting a portfolio key point: the portfolio key point named by `key_point_id` is fetched, then the resume it belongs to; once that resume is found to be the caller's, the delete is requested for exactly `key_point_id`, and removing a row finishes the request, reporting that resume.
pub proof fn lemma_delete_portfolio_key_point_acts_on_the_named_row(user_id: i32, key_point_id: i32, parent_id: i32, resume_id: i32, is_public: bool, deleted: u64)
    requires
        deleted > 0,
    ensures
        crate::operation::request_of(delete_portfolio_key_point_op(user_id, key_point_id)) == Some(crate::operation::DbRequest::Fetch { table: crate::operation::Table::PortfolioKeyPoints, id: key_point_id, in_resume: None }),
        crate::operation::request_of(crate::operation::after_reply(delete_portfolio_key_point_op(user_id, key_point_id), crate::operation::ReplyView::Found(crate::operation::RowRef::Child { parent: parent_id }))) == Some(crate::operation::DbRequest::Fetch { table: crate::operation::Table::PortfolioProjects, id: parent_id, in_resume: None }),
        crate::operation::request_of(crate::operation::after_reply(crate::operation::after_reply(delete_portfolio_key_point_op(user_id, key_point_id), crate::operation::ReplyView::Found(crate::operation::RowRef::Child { parent: parent_id })), crate::operation::ReplyView::Found(crate::operation::RowRef::Child { parent: resume_id }))) == Some(crate::operation::DbRequest::Fetch { table: crate::operation::Table::Resumes, id: resume_id, in_resume: None }),
        crate::operation::request_of(crate::operation::after_reply(crate::operation::after_reply(crate::operation::after_reply(delete_portfolio_key_point_op(user_id, key_point_id), crate::operation::ReplyView::Found(crate::operation::RowRef::Child { parent: parent_id })), crate::operation::ReplyView::Found(crate::operation::RowRef::Child { parent: resume_id })), crate::operation::ReplyView::Found(crate::operation::RowRef::Resume { created_by: Some(user_id), is_public: is_public }))) == Some(crate::operation::DbRequest::Delete { table: crate::operation::Table::PortfolioKeyPoints, id: key_point_id }),
        crate::operation::after_reply(crate::operation::after_reply(crate::operation::after_reply(crate::operation::after_reply(delete_portfolio_key_point_op(user_id, key_point_id), crate::operation::ReplyView::Found(crate::operation::RowRef::Child { parent: parent_id })), crate::operation::ReplyView::Found(crate::operation::RowRef::Child { parent: resume_id })), crate::operation::ReplyView::Found(crate::operation::RowRef::Resume { created_by: Some(user_id), is_public: is_public })), crate::operation::ReplyView::Deleted(deleted)).result == Some(Ok::<crate::operation::Outcome, crate::error::AppErr>(crate::operation::Outcome::ResumeId(resume_id))),
{
    reveal_with_fuel(crate::operation::settle, 4);
}

/// Deleting a portfolio technology: the portfolio technology named by `tech_id` is fetched, then the resume it belongs to; once that resume is found to be the caller's, the delete is requested for exactly `tech_id`, and removing a row finishes the request, reporting that resume.
pub proof fn lemma_delete_portfolio_technology_acts_on_the_named_row(user_id: i32, tech_id: i32, parent_id: i32, resume_id: i32, is_public: bool, deleted: u64)
    requires
        deleted > 0,
    ensures
        crate::operation::request_of(delete_portfolio_technology_op(user_id, tech_id)) == Some(crate::operation::DbRequest::Fetch { table: crate::operation::Table::PortfolioTechnologies, id: tech_id, in_resume: None }),
        crate::operation::request_of(crate::operation::after_reply(delete_portfolio_technology_op(user_id, tech_id), crate::operation::ReplyView::Found(crate::operation::RowRef::Child { parent: parent_id }))) == Some(crate::operation::DbRequest::Fetch { table: crate::operation::Table::PortfolioProjects, id: parent_id, in_resume: None }),
        crate::operation::request_of(crate::operation::after_reply(crate::operation::after_reply(delete_portfolio_technology_op(user_id, tech_id), crate::operation::ReplyView::Found(crate::operation::RowRef::Child { parent: parent_id })), crate::operation::ReplyView::Found(crate::operation::RowRef::Child { parent: resume_id }))) == Some(crate::operation::DbRequest::Fetch { table: crate::operation::Table::Resumes, id: resume_id, in_resume: None }),
        crate::operation::request_of(crate::operation::after_reply(crate::operation::after_reply(crate::operation::after_reply(delete_portfolio_technology_op(user_id, tech_id), crate::operation::ReplyView::Found(crate::operation::RowRef::Child { parent: parent_id })), crate::operation::ReplyView::Found(crate::operation::RowRef::Child { parent: resume_id })), crate::operation::ReplyView::Found(crate::operation::RowRef::Resume { created_by: Some(user_id), is_public: is_public }))) == Some(crate::operation::DbRequest::Delete { table: crate::operation::Table::PortfolioTechnologies, id: tech_id }),
        crate::operation::after_reply(crate::operation::after_reply(crate::operation::after_reply(crate::operation::after_reply(delete_portfolio_technology_op(user_id, tech_id), crate::operation::ReplyView::Found(crate::operation::RowRef::Child { parent: parent_id })), crate::operation::ReplyView::Found(crate::operation::RowRef::Child { parent: resume_id })), crate::operation::ReplyView::Found(crate::operation::RowRef::Resume { created_by: Some(user_id), is_public: is_public })), crate::operation::ReplyView::Deleted(deleted)).result == Some(Ok::<crate::operation::Outcome, crate::error::AppErr>(crate::operation::Outcome::ResumeId(resume_id))),
{
    reveal_with_fuel(crate::operation::settle, 4);
}

} // verus!
