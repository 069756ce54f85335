use profile_backend::auth::{AuthSession, MaybeAuthSession};
use profile_backend::education::delete_education;
use profile_backend::error::{ApplicationError, DbError};
use profile_backend::frameworks::update_framework;
use profile_backend::languages::{list_languages, list_languages_handler, list_languages_reply};
use profile_backend::models::Language;
use profile_backend::operation::{DbRequest, Operation, Outcome, Reply, RowRef, Table};
use profile_backend::resume_ops::{delete_resume, find_resume, list_resume, update_resume};
use profile_backend::skills::{create_skill, delete_skill, update_skill};

fn resume(created_by: Option<i32>, is_public: bool) -> Reply {
    Reply::Found(RowRef::Resume { created_by, is_public })
}

fn child(parent: i32) -> Reply {
    Reply::Found(RowRef::Child { parent })
}

/// Answers each request with the next reply and returns the requests seen and the result.
fn run(mut op: Operation, replies: Vec<Reply>) -> (Vec<DbRequest>, Result<Outcome, ApplicationError>) {
    let mut seen = Vec::new();
    for reply in replies {
        match op.next_request() {
            Some(req) => seen.push(req),
            None => break,
        }
        op.advance(reply);
    }
    assert!(op.is_finished(), "operation should have finished");
    assert_eq!(op.next_request(), None);
    (seen, op.into_result())
}

#[test]
fn public_languages_are_listed_for_anyone() {
    let (reqs, result) = run(list_languages(5, None), vec![resume(Some(1), true), Reply::Loaded]);
    assert_eq!(
        reqs,
        vec![
            DbRequest::Fetch { table: Table::Resumes, id: 5, in_resume: None },
            DbRequest::Load { table: Table::Languages, parent_id: 5 },
        ]
    );
    assert_eq!(result, Ok(Outcome::Rows));
}

#[test]
fn private_languages_are_hidden_from_others() {
    let (reqs, result) = run(list_languages(5, Some(2)), vec![resume(Some(1), false)]);
    assert_eq!(reqs.len(), 1);
    assert_eq!(result, Err(ApplicationError::NotFound("Not found".to_string())));
}

#[test]
fn list_languages_handler_uses_the_signed_in_user() {
    let owner = MaybeAuthSession(Some(AuthSession { session_id: 77, user_id: 1 }));
    let (_, result) = run(list_languages_handler(5, owner), vec![resume(Some(1), false), Reply::Loaded]);
    assert_eq!(result, Ok(Outcome::Rows));

    let anonymous = MaybeAuthSession(None);
    let (_, result) = run(list_languages_handler(5, anonymous), vec![resume(Some(1), false)]);
    assert_eq!(result, Err(ApplicationError::NotFound("Not found".to_string())));
}

#[test]
fn nonexistent_resume_message_mentions_the_id() {
    let (_, result) = run(list_resume(999999, None), vec![Reply::Failed(DbError::NotFound)]);
    match result {
        Err(ApplicationError::NotFound(msg)) => {
            assert!(msg.contains("999999"));
            assert_eq!(msg, "Error selecting resume with id 999999 - Record not found");
        }
        other => panic!("unexpected {:?}", other),
    }
}

#[test]
fn hidden_resume_reads_like_a_missing_one() {
    let (_, hidden) = run(list_resume(12, Some(3)), vec![resume(Some(4), false)]);
    let (_, missing) = run(list_resume(12, Some(3)), vec![Reply::Failed(DbError::NotFound)]);
    assert_eq!(hidden, missing);
    let (_, owner) = run(list_resume(12, Some(4)), vec![resume(Some(4), false)]);
    assert_eq!(owner, Ok(Outcome::Row));
}

#[test]
fn other_users_cannot_change_a_resume() {
    let (reqs, result) = run(update_resume(2, 10), vec![resume(Some(1), true)]);
    assert_eq!(reqs.len(), 1);
    assert_eq!(result, Err(ApplicationError::Forbidden));
    let (_, result) = run(delete_resume(2, 10), vec![resume(Some(1), false)]);
    assert_eq!(result, Err(ApplicationError::Forbidden));
    let (_, result) = run(create_skill(2, 10), vec![resume(Some(1), false)]);
    assert_eq!(result, Err(ApplicationError::Forbidden));
    let (_, result) = run(create_skill(2, 10), vec![resume(None, true)]);
    assert_eq!(result, Err(ApplicationError::Forbidden));
}

#[test]
fn owner_updates_a_resume() {
    let (reqs, result) = run(update_resume(1, 10), vec![resume(Some(1), false), Reply::Written]);
    assert_eq!(
        reqs,
        vec![
            DbRequest::Fetch { table: Table::Resumes, id: 10, in_resume: None },
            DbRequest::Update { table: Table::Resumes, id: 10 },
        ]
    );
    assert_eq!(result, Ok(Outcome::Row));
}

#[test]
fn deleting_a_missing_resume_is_not_found() {
    let (_, result) = run(delete_resume(1, 999999), vec![Reply::Failed(DbError::NotFound)]);
    assert_eq!(
        result,
        Err(ApplicationError::NotFound("Resume with id 999999 not found".to_string()))
    );
    let (_, result) = run(delete_resume(1, 8), vec![resume(Some(1), false), Reply::Deleted(0)]);
    assert_eq!(
        result,
        Err(ApplicationError::NotFound("Resume with id 8 not found".to_string()))
    );
    let (_, result) = run(delete_resume(1, 8), vec![resume(Some(1), false), Reply::Deleted(1)]);
    assert_eq!(result, Ok(Outcome::Nothing));
}

#[test]
fn delete_skill_reports_the_resume_it_changed() {
    let (reqs, result) = run(
        delete_skill(1, 40),
        vec![child(10), resume(Some(1), false), Reply::Deleted(1)],
    );
    assert_eq!(
        reqs,
        vec![
            DbRequest::Fetch { table: Table::Skills, id: 40, in_resume: None },
            DbRequest::Fetch { table: Table::Resumes, id: 10, in_resume: None },
            DbRequest::Delete { table: Table::Skills, id: 40 },
        ]
    );
    assert_eq!(result, Ok(Outcome::ResumeId(10)));
}

#[test]
fn skill_failures_are_translated() {
    let (_, result) = run(update_skill(1, 40), vec![Reply::Failed(DbError::NotFound)]);
    assert_eq!(
        result,
        Err(ApplicationError::NotFound("Skill with id 40 not found".to_string()))
    );
    let (_, result) = run(
        update_skill(1, 40),
        vec![child(10), Reply::Failed(DbError::Other("down".to_string()))],
    );
    assert_eq!(
        result,
        Err(ApplicationError::Internal("Database error - down".to_string()))
    );
    let (_, result) = run(
        delete_skill(1, 40),
        vec![child(10), resume(Some(1), false), Reply::Failed(DbError::Other("locked".to_string()))],
    );
    assert_eq!(
        result,
        Err(ApplicationError::Internal("Database error - locked".to_string()))
    );
}

#[test]
fn update_framework_reports_row_and_resume() {
    let (reqs, result) = run(
        update_framework(1, 3),
        vec![child(20), child(10), resume(Some(1), true), Reply::Written],
    );
    assert_eq!(reqs[0], DbRequest::Fetch { table: Table::Frameworks, id: 3, in_resume: None });
    assert_eq!(reqs[1], DbRequest::Fetch { table: Table::Languages, id: 20, in_resume: None });
    assert_eq!(reqs[2], DbRequest::Fetch { table: Table::Resumes, id: 10, in_resume: None });
    assert_eq!(reqs[3], DbRequest::Update { table: Table::Frameworks, id: 3 });
    assert_eq!(result, Ok(Outcome::RowAndResumeId(10)));
}

#[test]
fn delete_education_of_a_missing_row() {
    let (_, result) = run(delete_education(1, 6), vec![Reply::Failed(DbError::NotFound)]);
    assert_eq!(
        result,
        Err(ApplicationError::NotFound("Education with id 6 not found".to_string()))
    );
}

#[test]
fn find_resume_fetches_by_id_whoever_owns_it() {
    let (reqs, result) = run(find_resume(31), vec![resume(Some(2), false)]);
    assert_eq!(reqs, vec![DbRequest::Fetch { table: Table::Resumes, id: 31, in_resume: None }]);
    assert_eq!(result, Ok(Outcome::Row));
    let (_, result) = run(find_resume(31), vec![Reply::Failed(DbError::NotFound)]);
    assert_eq!(result, Err(ApplicationError::NotFound("Not found".to_string())));
}

#[test]
fn accepts_only_answers_the_step_can_take() {
    let op = delete_education(1, 6);
    assert!(op.accepts(&Reply::Failed(DbError::NotFound)));
    assert!(!op.accepts(&Reply::Failed(DbError::Other("down".to_string()))));
    assert!(op.accepts(&child(10)));
    assert!(!op.accepts(&resume(Some(1), true)));
    assert!(!op.accepts(&Reply::Loaded));

    let op = list_resume(3, None);
    assert!(op.accepts(&resume(None, true)));
    assert!(!op.accepts(&child(3)));
    assert!(op.accepts(&Reply::Failed(DbError::Other("down".to_string()))));
}

#[test]
fn updating_a_missing_resume_names_the_id() {
    let (_, result) = run(update_resume(1, 999999), vec![Reply::Failed(DbError::NotFound)]);
    match result {
        Err(ApplicationError::NotFound(msg)) => {
            assert!(msg.contains("999999"));
            assert_eq!(msg, "Resume with id 999999 not found");
        }
        other => panic!("unexpected {:?}", other),
    }
    let (_, result) = run(update_resume(1, 5), vec![Reply::Failed(DbError::Other("down".to_string()))]);
    assert_eq!(result, Err(ApplicationError::Internal("Database error - down".to_string())));
}

#[test]
fn languages_reply_orders_rows_and_maps_errors() {
    let lang = |id: i32, order: Option<i32>| Language { id, resume_id: 5, language_name: format!("l{}", id), display_order: order };
    let (reply, rows) = list_languages_reply(5, Ok(Outcome::Rows), vec![lang(2, Some(3)), lang(1, Some(3)), lang(9, None)]);
    assert_eq!((reply.status, reply.message, reply.notice), (200, None, None));
    assert_eq!(rows.unwrap().iter().map(|l| l.id).collect::<Vec<_>>(), vec![9, 1, 2]);
    let (reply, rows) = list_languages_reply(5, Err(ApplicationError::NotFound("Not found".to_string())), vec![lang(1, None)]);
    assert_eq!((reply.status, reply.message), (404, Some("Not found".to_string())));
    assert!(rows.is_none());
    let (reply, _) = list_languages_reply(5, Err(ApplicationError::Forbidden), vec![]);
    assert_eq!((reply.status, reply.message), (403, Some("Forbidden".to_string())));
}
