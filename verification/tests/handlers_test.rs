use profile_backend::error::ApplicationError;
use profile_backend::handlers::{
    debug_text, outcome_resume_id, respond, ChangeNotice, Endpoint, ResumeIds,
};
use profile_backend::operation::Outcome;
use profile_backend::realtime::{ResumeChangedAction, SectionType};

const NO_IDS: ResumeIds = ResumeIds { path: None, row: None, outcome: None };

#[test]
fn success_statuses() {
    let ok: Result<(), ApplicationError> = Ok(());
    assert_eq!(respond(Endpoint::ListSkills, NO_IDS, &ok).status, 200);
    assert_eq!(respond(Endpoint::CreateSkill, NO_IDS, &ok).status, 201);
    assert_eq!(respond(Endpoint::Register, NO_IDS, &ok).status, 201);
    assert_eq!(respond(Endpoint::UpdateEducation, NO_IDS, &ok).status, 200);
    assert_eq!(respond(Endpoint::DeletePortfolioTechnology, NO_IDS, &ok).status, 204);
    let logout = respond(Endpoint::Logout, NO_IDS, &ok);
    assert_eq!(logout.status, 200);
    assert_eq!(logout.message, Some("Logged out".to_string()));
    assert_eq!(respond(Endpoint::Login, NO_IDS, &ok).message, None);
}

#[test]
fn changes_are_published_only_on_success() {
    let ids = ResumeIds { path: Some(3), row: Some(4), outcome: Some(5) };
    let ok: Result<(), ApplicationError> = Ok(());
    assert_eq!(
        respond(Endpoint::CreateResume, ids, &ok).notice,
        Some(ChangeNotice { resume_id: 4, action: ResumeChangedAction::Created })
    );
    assert_eq!(
        respond(Endpoint::UpdateResume, ids, &ok).notice,
        Some(ChangeNotice { resume_id: 4, action: ResumeChangedAction::Updated(SectionType::PersonalInfo) })
    );
    assert_eq!(
        respond(Endpoint::DeleteResume, ids, &ok).notice,
        Some(ChangeNotice { resume_id: 3, action: ResumeChangedAction::Deleted })
    );
    assert_eq!(
        respond(Endpoint::DeleteLanguage, ids, &ok).notice,
        Some(ChangeNotice { resume_id: 5, action: ResumeChangedAction::Updated(SectionType::Languages) })
    );
    assert_eq!(
        respond(Endpoint::UpdateWorkExperienceKeyPoint, ids, &ok).notice,
        Some(ChangeNotice { resume_id: 5, action: ResumeChangedAction::Updated(SectionType::Experience) })
    );
    assert_eq!(
        respond(Endpoint::CreateFramework, ids, &ok).notice,
        Some(ChangeNotice { resume_id: 3, action: ResumeChangedAction::Updated(SectionType::Frameworks) })
    );
    assert_eq!(
        respond(Endpoint::CreateSkill, ids, &ok).notice,
        Some(ChangeNotice { resume_id: 3, action: ResumeChangedAction::Updated(SectionType::Skills) })
    );
    assert_eq!(respond(Endpoint::UpdateSkill, ids, &ok).notice, None);
    assert_eq!(respond(Endpoint::ListResume, ids, &ok).notice, None);

    let failed: Result<(), ApplicationError> = Err(ApplicationError::Forbidden);
    let r = respond(Endpoint::UpdateResume, ids, &failed);
    assert_eq!(r.notice, None);
    assert_eq!(r.status, 403);
    assert_eq!(r.message, Some("Forbidden".to_string()));
}

#[test]
fn error_styles() {
    let nf: Result<(), ApplicationError> = Err(ApplicationError::NotFound("Resume with id 9 not found".to_string()));
    let r = respond(Endpoint::DeleteResume, NO_IDS, &nf);
    assert_eq!((r.status, r.message), (404, Some("Resume with id 9 not found".to_string())));

    let r = respond(Endpoint::Login, NO_IDS, &nf);
    assert_eq!((r.status, r.message), (401, Some("Invalid credentials".to_string())));
    let r = respond(Endpoint::Me, NO_IDS, &nf);
    assert_eq!((r.status, r.message), (401, Some("Unauthorized".to_string())));

    let conflict: Result<(), ApplicationError> = Err(ApplicationError::Conflict("Resume with this email already exists".to_string()));
    let r = respond(Endpoint::CreateResume, NO_IDS, &conflict);
    assert_eq!((r.status, r.message), (409, Some("Resume with this email already exists".to_string())));
    let r = respond(Endpoint::CreateResume, NO_IDS, &nf);
    assert_eq!((r.status, r.message), (409, Some("NotFound(\"Resume with id 9 not found\")".to_string())));

    let internal: Result<(), ApplicationError> = Err(ApplicationError::Internal("Database error - x".to_string()));
    let r = respond(Endpoint::ListResumes, NO_IDS, &internal);
    assert_eq!((r.status, r.message), (500, Some("Database error - x".to_string())));
    let forbidden: Result<(), ApplicationError> = Err(ApplicationError::Forbidden);
    let r = respond(Endpoint::ListResumes, NO_IDS, &forbidden);
    assert_eq!((r.status, r.message), (500, Some("Forbidden".to_string())));

    let bad: Result<(), ApplicationError> = Err(ApplicationError::BadRequest("bad".to_string()));
    assert_eq!(respond(Endpoint::CreateSkill, NO_IDS, &bad).status, 400);
    let unauth: Result<(), ApplicationError> = Err(ApplicationError::Unauthorized);
    assert_eq!(respond(Endpoint::CreateSkill, NO_IDS, &unauth).status, 401);
}

#[test]
fn outcome_ids() {
    assert_eq!(outcome_resume_id(Outcome::ResumeId(4)), Some(4));
    assert_eq!(outcome_resume_id(Outcome::RowAndResumeId(6)), Some(6));
    assert_eq!(outcome_resume_id(Outcome::Row), None);
    assert_eq!(outcome_resume_id(Outcome::Nothing), None);
}

#[test]
fn debug_text_matches_derived_debug() {
    let cases = vec![
        ApplicationError::Unauthorized,
        ApplicationError::Forbidden,
        ApplicationError::NotFound("Resume with id 9 not found".to_string()),
        ApplicationError::Conflict("say \"hi\"\n".to_string()),
        ApplicationError::BadRequest("tab\there".to_string()),
        ApplicationError::Internal("Database error - x".to_string()),
    ];
    for e in cases {
        assert_eq!(debug_text(&e), format!("{:?}", e));
    }
    assert_eq!(debug_text(&ApplicationError::Forbidden), "Forbidden");
}
