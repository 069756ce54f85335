use vstd::prelude::*;
use crate::auth::{viewer_of, MaybeAuthSession};
use crate::operation::{
    guards_loads, guards_writes, is_write, start, FailureRule, Finish, IdSource, OnFailure, Operation, Step,
    StepView, Table,
};
#[allow(unused_imports)]
use crate::text::{int_text, message_with_id};

use crate::models::{Language, NewLanguageRequest, NewLanguage};
use crate::error::{body_of, status_of, ApplicationError};
use crate::handlers::{message_view, respond, Endpoint, HandlerReply, ResumeIds};
use crate::operation::{finish_list, Outcome};
use crate::ordering::stable_sorted;

verus! {

/// The row that adding a language to resume `resume_id` inserts: the
/// request's fields, under that resume.
pub fn new_language(resume_id: i32, payload: NewLanguageRequest) -> (row: NewLanguage)
    ensures
        row.resume_id == resume_id,
        row.language_name == payload.language_name,
        row.display_order == payload.display_order,
{
    NewLanguage {
        resume_id,
        language_name: payload.language_name,
        display_order: payload.display_order,
    }
}


/// Fetch the resume, check it is visible, load its languages.
pub open spec fn list_languages_plan(resume_id: i32) -> Seq<StepView> {
    seq![
        StepView::Fetch { table: Table::Resumes, id: IdSource::Given(resume_id), in_resume: None, on_failure: FailureRule::Generic },
        StepView::RequireVisible { resume_step: 0, on_hidden: FailureRule::Generic },
        StepView::Load { table: Table::Languages, parent: IdSource::Given(resume_id), on_failure: FailureRule::Generic },
    ]
}

/// The state in which [`list_languages`] starts.
pub open spec fn list_languages_op(resume_id: i32, user_id: Option<i32>) -> crate::operation::OpView {
    start(user_id, list_languages_plan(resume_id), Finish::Rows)
}

/// Lists the languages of a resume that the caller may see (public, or owned by
/// the signed-in user), in display order.
pub fn list_languages(resume_id: i32, user_id: Option<i32>) -> (op: Operation)
    ensures
        op.wf(),
        op@ == list_languages_op(resume_id, user_id),
        guards_loads(op@.plan),
{
    let mut steps: Vec<Step> = Vec::new();
    steps.push(Step::Fetch { table: Table::Resumes, id: IdSource::Given(resume_id), in_resume: None, on_failure: OnFailure::Generic });
    steps.push(Step::RequireVisible { resume_step: 0, on_hidden: OnFailure::Generic });
    steps.push(Step::Load { table: Table::Languages, parent: IdSource::Given(resume_id), on_failure: OnFailure::Generic });
    let ghost plan = steps@.map_values(|s: Step| s@);
    assert(plan[0] == steps@[0]@);
    assert(plan[1] == steps@[1]@);
    assert(plan[2] == steps@[2]@);
    assert(plan =~= list_languages_plan(resume_id));
    assert forall|w: int| 0 <= w < plan.len() && #[trigger] plan[w] is Load implies exists|k: int| 0 <= k < w && #[trigger] plan[k] is RequireVisible by {
        assert(plan[1] is RequireVisible);
    }
    Operation::new(user_id, steps, Finish::Rows)
}

/// The state in which [`list_languages_handler`] starts.
pub open spec fn list_languages_handler_op(resume_id: i32, maybe_auth: MaybeAuthSession) -> crate::operation::OpView {
    start(viewer_of(maybe_auth), list_languages_plan(resume_id), Finish::Rows)
}

/// Serves `GET /resume/<resume_id>/languages`: the languages of the resume
/// as the caller, signed in or not, may see them.
pub fn list_languages_handler(resume_id: i32, maybe_auth: MaybeAuthSession) -> (op: Operation)
    ensures
        op.wf(),
        op@ == list_languages_handler_op(resume_id, maybe_auth),
        guards_loads(op@.plan),
{
    let user_id = maybe_auth.user_id();
    list_languages(resume_id, user_id)
}

/// The answer of `GET /resume/<resume_id>/languages` once its read has
/// finished: `200` with the loaded languages in display order, or the
/// error with its own status and message; nothing is published.
pub fn list_languages_reply(
    resume_id: i32,
    result: Result<Outcome, ApplicationError>,
    loaded: Vec<Language>,
) -> (r: (HandlerReply, Option<Vec<Language>>))
    ensures
        r.0.notice is None,
        match result {
            Ok(_) => {
                &&& r.0.status == 200
                &&& r.0.message is None
                &&& r.1 matches Some(v) && v@.len() == loaded@.len() && stable_sorted(loaded@, v@)
            },
            Err(e) => {
                &&& r.0.status == status_of(e@)
                &&& message_view(r.0.message) == Some(body_of(e@))
                &&& r.1 is None
            },
        },
{
    let ids = ResumeIds { path: Some(resume_id), row: None, outcome: None };
    let listed = finish_list(result, loaded);
    let reply = respond(Endpoint::ListLanguages, ids, &listed);
    (reply, listed.ok())
}

/// Fetch the resume, check ownership, insert the language.
pub open spec fn create_language_plan(resume_id: i32) -> Seq<StepView> {
    seq![
        StepView::Fetch { table: Table::Resumes, id: IdSource::Given(resume_id), in_resume: None, on_failure: FailureRule::Generic },
        StepView::RequireOwner { resume_step: 0 },
        StepView::Insert { table: Table::Languages, on_failure: FailureRule::Generic },
    ]
}

/// The state in which [`create_language`] starts.
pub open spec fn create_language_op(user_id: i32, resume_id: i32) -> crate::operation::OpView {
    start(Some(user_id), create_language_plan(resume_id), Finish::Row)
}

/// Adds a language to a resume that the signed-in user owns; the result is the
/// inserted row.
pub fn create_language(user_id: i32, resume_id: i32) -> (op: Operation)
    ensures
        op.wf(),
        op@ == create_language_op(user_id, resume_id),
        guards_writes(op@.plan),
{
    let mut steps: Vec<Step> = Vec::new();
    steps.push(Step::Fetch { table: Table::Resumes, id: IdSource::Given(resume_id), in_resume: None, on_failure: OnFailure::Generic });
    steps.push(Step::RequireOwner { resume_step: 0 });
    steps.push(Step::Insert { table: Table::Languages, on_failure: OnFailure::Generic });
    let ghost plan = steps@.map_values(|s: Step| s@);
    assert(plan[0] == steps@[0]@);
    assert(plan[1] == steps@[1]@);
    assert(plan[2] == steps@[2]@);
    assert(plan =~= create_language_plan(resume_id));
    assert forall|w: int| 0 <= w < plan.len() && is_write(#[trigger] plan[w]) implies exists|k: int| 0 <= k < w && #[trigger] plan[k] is RequireOwner by {
        assert(plan[1] is RequireOwner);
    }
    Operation::new(Some(user_id), steps, Finish::Row)
}

/// Fetch the language and its resume, check ownership, update the language.
pub open spec fn update_language_plan(language_id: i32) -> Seq<StepView> {
    seq![
        StepView::Fetch { table: Table::Languages, id: IdSource::Given(language_id), in_resume: None, on_failure: FailureRule::Generic },
        StepView::Fetch { table: Table::Resumes, id: IdSource::ParentOf(0), in_resume: None, on_failure: FailureRule::Generic },
        StepView::RequireOwner { resume_step: 1 },
        StepView::Update { table: Table::Languages, id: IdSource::Given(language_id), on_failure: FailureRule::Generic },
    ]
}

/// The state in which [`update_language`] starts.
pub open spec fn update_language_op(user_id: i32, language_id: i32) -> crate::operation::OpView {
    start(Some(user_id), update_language_plan(language_id), Finish::Row)
}

/// Changes a language of a resume that the signed-in user owns; the result is
/// the updated row.
pub fn update_language(user_id: i32, language_id: i32) -> (op: Operation)
    ensures
        op.wf(),
        op@ == update_language_op(user_id, language_id),
        guards_writes(op@.plan),
{
    let mut steps: Vec<Step> = Vec::new();
    steps.push(Step::Fetch { table: Table::Languages, id: IdSource::Given(language_id), in_resume: None, on_failure: OnFailure::Generic });
    steps.push(Step::Fetch { table: Table::Resumes, id: IdSource::ParentOf(0), in_resume: None, on_failure: OnFailure::Generic });
    steps.push(Step::RequireOwner { resume_step: 1 });
    steps.push(Step::Update { table: Table::Languages, id: IdSource::Given(language_id), on_failure: OnFailure::Generic });
    let ghost plan = steps@.map_values(|s: Step| s@);
    assert(plan[0] == steps@[0]@);
    assert(plan[1] == steps@[1]@);
    assert(plan[2] == steps@[2]@);
    assert(plan[3] == steps@[3]@);
    assert(plan =~= update_language_plan(language_id));
    assert forall|w: int| 0 <= w < plan.len() && is_write(#[trigger] plan[w]) implies exists|k: int| 0 <= k < w && #[trigger] plan[k] is RequireOwner by {
        assert(plan[2] is RequireOwner);
    }
    Operation::new(Some(user_id), steps, Finish::Row)
}

/// Fetch the language and its resume, check ownership, delete the language.
pub open spec fn delete_language_plan(language_id: i32) -> Seq<StepView> {
    seq![
        StepView::Fetch { table: Table::Languages, id: IdSource::Given(language_id), in_resume: None, on_failure: FailureRule::Generic },
        StepView::Fetch { table: Table::Resumes, id: IdSource::ParentOf(0), in_resume: None, on_failure: FailureRule::Generic },
        StepView::RequireOwner { resume_step: 1 },
        StepView::Delete { table: Table::Languages, id: IdSource::Given(language_id), on_failure: FailureRule::Generic, nothing_deleted: "Language with id "@ + int_text(language_id as int) + " not found"@ },
    ]
}

/// The state in which [`delete_language`] starts.
pub open spec fn delete_language_op(user_id: i32, language_id: i32) -> crate::operation::OpView {
    start(Some(user_id), delete_language_plan(language_id), Finish::ParentOf(0))
}

/// Removes a language from a resume that the signed-in user owns; the result is the id of the resume.
pub fn delete_language(user_id: i32, language_id: i32) -> (op: Operation)
    ensures
        op.wf(),
        op@ == delete_language_op(user_id, language_id),
        guards_writes(op@.plan),
{
    let mut steps: Vec<Step> = Vec::new();
    steps.push(Step::Fetch { table: Table::Languages, id: IdSource::Given(language_id), in_resume: None, on_failure: OnFailure::Generic });
    steps.push(Step::Fetch { table: Table::Resumes, id: IdSource::ParentOf(0), in_resume: None, on_failure: OnFailure::Generic });
    steps.push(Step::RequireOwner { resume_step: 1 });
    steps.push(Step::Delete { table: Table::Languages, id: IdSource::Given(language_id), on_failure: OnFailure::Generic, nothing_deleted: message_with_id("Language with id ", language_id, " not found") });
    let ghost plan = steps@.map_values(|s: Step| s@);
    assert(plan[0] == steps@[0]@);
    assert(plan[1] == steps@[1]@);
    assert(plan[2] == steps@[2]@);
    assert(plan[3] == steps@[3]@);
    assert(plan =~= delete_language_plan(language_id));
    assert forall|w: int| 0 <= w < plan.len() && is_write(#[trigger] plan[w]) implies exists|k: int| 0 <= k < w && #[trigger] plan[k] is RequireOwner by {
        assert(plan[2] is RequireOwner);
    }
    Operation::new(Some(user_id), steps, Finish::ParentOf(0))
}
/// Listing: once the resume named by `resume_id` is found public or the caller's, the rows loaded are those whose parent is `resume_id`, and loading them finishes the request.
pub proof fn lemma_list_languages_loads_the_named_parent(resume_id: i32, user_id: Option<i32>, created_by: Option<i32>, is_public: bool)
    requires
        is_public || (user_id is Some && created_by == user_id),
    ensures
        crate::operation::request_of(list_languages_op(resume_id, user_id)) == Some(crate::operation::DbRequest::Fetch { table: crate::operation::Table::Resumes, id: resume_id, in_resume: None }),
        crate::operation::request_of(crate::operation::after_reply(list_languages_op(resume_id, user_id), crate::operation::ReplyView::Found(crate::operation::RowRef::Resume { created_by: created_by, is_public: is_public }))) == Some(crate::operation::DbRequest::Load { table: crate::operation::Table::Languages, parent_id: resume_id }),
        crate::operation::after_reply(crate::operation::after_reply(list_languages_op(resume_id, user_id), crate::operation::ReplyView::Found(crate::operation::RowRef::Resume { created_by: created_by, is_public: is_public })), crate::operation::ReplyView::Loaded).result == Some(Ok::<crate::operation::Outcome, crate::error::AppErr>(crate::operation::Outcome::Rows)),
{
    reveal_with_fuel(crate::operation::settle, 4);
}

/// Adding a language: the resume named by `resume_id` is fetched; only then is the insert requested, and a successful insert finishes the request.
pub proof fn lemma_create_language_inserts_into_the_named_resume(user_id: i32, resume_id: i32, is_public: bool)
    ensures
        crate::operation::request_of(create_language_op(user_id, resume_id)) == Some(crate::operation::DbRequest::Fetch { table: crate::operation::Table::Resumes, id: resume_id, in_resume: None }),
        crate::operation::request_of(crate::operation::after_reply(create_language_op(user_id, resume_id), crate::operation::ReplyView::Found(crate::operation::RowRef::Resume { created_by: Some(user_id), is_public: is_public }))) == Some(crate::operation::DbRequest::Insert { table: crate::operation::Table::Languages }),
        crate::operation::after_reply(crate::operation::after_reply(create_language_op(user_id, resume_id), crate::operation::ReplyView::Found(crate::operation::RowRef::Resume { created_by: Some(user_id), is_public: is_public })), crate::operation::ReplyView::Written).result == Some(Ok::<crate::operation::Outcome, crate::error::AppErr>(crate::operation::Outcome::Row)),
{
    reveal_with_fuel(crate::operation::settle, 4);
}

/// Updating a language: the language named by `language_id` is fetched, then the resume it belongs to; once that resume is found to be the caller's, the update is requested for exactly `language_id`, and a successful write finishes the request.
pub proof fn lemma_update_language_acts_on_the_named_row(user_id: i32, language_id: i32, resume_id: i32, is_public: bool)
    ensures
        crate::operation::request_of(update_language_op(user_id, language_id)) == Some(crate::operation::DbRequest::Fetch { table: crate::operation::Table::Languages, id: language_id, in_resume: None }),
        crate::operation::request_of(crate::operation::after_reply(update_language_op(user_id, language_id), crate::operation::ReplyView::Found(crate::operation::RowRef::Child { parent: resume_id }))) == Some(crate::operation::DbRequest::Fetch { table: crate::operation::Table::Resumes, id: resume_id, in_resume: None }),
        crate::operation::request_of(crate::operation::after_reply(crate::operation::after_reply(update_language_op(user_id, language_id), crate::operation::ReplyView::Found(crate::operation::RowRef::Child { parent: resume_id })), crate::operation::ReplyView::Found(crate::operation::RowRef::Resume { created_by: Some(user_id), is_public: is_public }))) == Some(crate::operation::DbRequest::Update { table: crate::operation::Table::Languages, id: language_id }),
        crate::operation::after_reply(crate::operation::after_reply(crate::operation::after_reply(update_language_op(user_id, language_id), crate::operation::ReplyView::Found(crate::operation::RowRef::Child { parent: resume_id })), crate::operation::ReplyView::Found(crate::operation::RowRef::Resume { created_by: Some(user_id), is_public: is_public })), crate::operation::ReplyView::Written).result == Some(Ok::<crate::operation::Outcome, crate::error::AppErr>(crate::operation::Outcome::Row)),
{
    reveal_with_fuel(crate::operation::settle, 4);
}

/// Deleting a language: the language named by `language_id` is fetched, then the resume it belongs to; once that resume is found to be the caller's, the delete is requested for exactly `language_id`, and removing a row finishes the request, reporting that resume.
pub proof fn lemma_delete_language_acts_on_the_named_row(user_id: i32, language_id: i32, resume_id: i32, is_public: bool, deleted: u64)
    requires
        deleted > 0,
    ensures
        crate::operation::request_of(delete_language_op(user_id, language_id)) == Some(crate::operation::DbRequest::Fetch { table: crate::operation::Table::Languages, id: language_id, in_resume: None }),
        crate::operation::request_of(crate::operation::after_reply(delete_language_op(user_id, language_id), crate::operation::ReplyView::Found(crate::operation::RowRef::Child { parent: resume_id }))) == Some(crate::operation::DbRequest::Fetch { table: crate::operation::Table::Resumes, id: resume_id, in_resume: None }),
        crate::operation::request_of(crate::operation::after_reply(crate::operation::after_reply(delete_language_op(user_id, language_id), crate::operation::ReplyView::Found(crate::operation::RowRef::Child { parent: resume_id })), crate::operation::ReplyView::Found(crate::operation::RowRef::Resume { created_by: Some(user_id), is_public: is_public }))) == Some(crate::operation::DbRequest::Delete { table: crate::operation::Table::Languages, id: language_id }),
        crate::operation::after_reply(crate::operation::after_reply(crate::operation::after_reply(delete_language_op(user_id, language_id), crate::operation::ReplyView::Found(crate::operation::RowRef::Child { parent: resume_id })), crate::operation::ReplyView::Found(crate::operation::RowRef::Resume { created_by: Some(user_id), is_public: is_public })), crate::operation::ReplyView::Deleted(deleted)).result == Some(Ok::<crate::operation::Outcome, crate::error::AppErr>(crate::operation::Outcome::ResumeId(resume_id))),
{
    reveal_with_fuel(crate::operation::settle, 4);
}

} // verus!
