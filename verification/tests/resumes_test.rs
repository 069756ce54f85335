use profile_backend::education::{new_education, new_education_key_point};
use profile_backend::frameworks::new_framework;
use profile_backend::languages::new_language;
use profile_backend::models::{
    Language, NewEducationKeyPointRequest, NewEducationRequest, NewFrameworkRequest, NewLanguageRequest,
    NewPortfolioKeyPointRequest, NewPortfolioProjectRequest, NewPortfolioTechnologyRequest, NewSkill,
    NewSkillRequest, NewWorkExperienceKeyPointRequest,
};
use profile_backend::operation::{finish_list, Outcome};
use profile_backend::portfolio_projects::{new_portfolio_key_point, new_portfolio_project, new_portfolio_technology};
use profile_backend::skills::new_skill;
use profile_backend::work_experiences::new_work_experience_key_point;
use profile_backend::error::{ApplicationError, DbError};
use profile_backend::models::{NewResumeRequest, Resume, Skill};
use profile_backend::ordering::sort_for_display;
use profile_backend::resumes::{create_resume, finish_create_resume, is_visible_to, list_resumes};

fn resume(id: i32, created_by: Option<i32>, is_public: bool) -> Resume {
    Resume {
        id,
        name: format!("Resume {}", id),
        profile_image_url: None,
        location: None,
        email: format!("r{}@example.com", id),
        github_url: None,
        mobile_number: None,
        created_by,
        is_public,
        created_at: "2024-01-01".to_string(),
        updated_at: "2024-01-01".to_string(),
    }
}

#[test]
fn listing_shows_public_and_own_resumes_sorted_by_id() {
    let rows = vec![resume(5, Some(1), false), resume(2, Some(2), true), resume(9, Some(2), false), resume(1, None, true)];
    let anon: Vec<i32> = list_resumes(None, Ok(rows.clone())).unwrap().iter().map(|r| r.id).collect();
    assert_eq!(anon, vec![1, 2]);
    let owner: Vec<i32> = list_resumes(Some(1), Ok(rows.clone())).unwrap().iter().map(|r| r.id).collect();
    assert_eq!(owner, vec![1, 2, 5]);
    let other: Vec<i32> = list_resumes(Some(2), Ok(rows)).unwrap().iter().map(|r| r.id).collect();
    assert_eq!(other, vec![1, 2, 9]);
    assert_eq!(
        list_resumes(None, Err(DbError::Other("down".to_string()))),
        Err(ApplicationError::Internal("Database error - down".to_string()))
    );
}

#[test]
fn visibility_rule() {
    assert!(is_visible_to(None, true, None));
    assert!(is_visible_to(Some(1), false, Some(1)));
    assert!(!is_visible_to(Some(1), false, Some(2)));
    assert!(!is_visible_to(Some(1), false, None));
    assert!(!is_visible_to(None, false, Some(1)));
}

#[test]
fn created_resume_belongs_to_the_user_and_is_private_by_default() {
    let req = NewResumeRequest {
        name: "John Doe".to_string(),
        profile_image_url: Some("https://example.com/profile.jpg".to_string()),
        location: Some("San Francisco, CA".to_string()),
        email: "john.doe@example.com".to_string(),
        github_url: Some("https://github.com/johndoe".to_string()),
        mobile_number: Some("+1234567890".to_string()),
        is_public: None,
    };
    let row = create_resume(7, req.clone());
    assert_eq!(row.created_by, Some(7));
    assert!(!row.is_public);
    assert_eq!(row.email, "john.doe@example.com");
    let public = create_resume(7, NewResumeRequest { is_public: Some(true), ..req });
    assert!(public.is_public);
}

#[test]
fn duplicate_resume_email_is_a_conflict() {
    assert_eq!(
        finish_create_resume(Err(DbError::UniqueViolation("resumes_email_key".to_string()))),
        Err(ApplicationError::Conflict("Resume with this email already exists".to_string()))
    );
    let r = resume(3, Some(1), false);
    assert_eq!(finish_create_resume(Ok(r.clone())), Ok(r));
}

#[test]
fn display_order_is_stable() {
    let skill = |id: i32, order: Option<i32>| Skill {
        id,
        resume_id: 1,
        skill_name: format!("s{}", id),
        confidence_percentage: None,
        display_order: order,
    };
    let sorted = sort_for_display(vec![skill(4, Some(2)), skill(3, None), skill(1, Some(2)), skill(2, Some(0))]);
    let ids: Vec<i32> = sorted.iter().map(|s| s.id).collect();
    assert_eq!(ids, vec![2, 3, 1, 4]);
}

#[test]
fn new_rows_copy_the_request_under_their_parent() {

    let s = new_skill(4, NewSkillRequest { skill_name: "Rust".to_string(), confidence_percentage: Some(80), display_order: Some(0) });
    assert_eq!(s, NewSkill { resume_id: 4, skill_name: "Rust".to_string(), confidence_percentage: Some(80), display_order: Some(0) });
    let l = new_language(4, NewLanguageRequest { language_name: "TypeScript".to_string(), display_order: None });
    assert_eq!((l.resume_id, l.language_name.as_str()), (4, "TypeScript"));
    let f = new_framework(7, NewFrameworkRequest { framework_name: "Rocket".to_string(), display_order: Some(2) });
    assert_eq!((f.language_id, f.framework_name.as_str(), f.display_order), (7, "Rocket", Some(2)));
    let e = new_education(4, NewEducationRequest {
        education_stage: "University".to_string(),
        institution_name: "Example University".to_string(),
        degree: Some("BSc Computer Science".to_string()),
        start_date: Some("2020-01-01".to_string()),
        end_date: Some("2024-01-01".to_string()),
        description: Some("Some description".to_string()),
        display_order: Some(0),
    });
    assert_eq!(e.resume_id, 4);
    assert_eq!(e.start_date, Some("2020-01-01".to_string()));
    let k = new_education_key_point(11, NewEducationKeyPointRequest { key_point: "Graduated with honours".to_string(), display_order: None });
    assert_eq!((k.education_id, k.key_point.as_str()), (11, "Graduated with honours"));
    let w = new_work_experience_key_point(12, NewWorkExperienceKeyPointRequest { key_point: "Led a project".to_string(), display_order: Some(1) });
    assert_eq!((w.work_experience_id, w.display_order), (12, Some(1)));
    let p = new_portfolio_project(4, NewPortfolioProjectRequest {
        project_name: "Resume Builder".to_string(),
        image_url: None,
        project_link: Some("https://example.com".to_string()),
        source_code_link: None,
        description: Some("A project".to_string()),
        display_order: Some(0),
    });
    assert_eq!((p.resume_id, p.project_name.as_str()), (4, "Resume Builder"));
    let pk = new_portfolio_key_point(13, NewPortfolioKeyPointRequest { key_point: "Built with Svelte".to_string(), display_order: None });
    assert_eq!(pk.portfolio_project_id, 13);
    let t = new_portfolio_technology(13, NewPortfolioTechnologyRequest { technology_name: "Svelte".to_string(), display_order: None });
    assert_eq!((t.portfolio_project_id, t.technology_name.as_str()), (13, "Svelte"));
}

#[test]
fn finished_lists_come_in_display_order() {
    let lang = |id: i32, order: Option<i32>| Language { id, resume_id: 1, language_name: format!("l{}", id), display_order: order };
    let v = finish_list(Ok(Outcome::Rows), vec![lang(5, Some(1)), lang(3, None), lang(4, Some(1))]).unwrap();
    assert_eq!(v.iter().map(|l| l.id).collect::<Vec<_>>(), vec![3, 4, 5]);
    let err = finish_list::<Language>(Err(ApplicationError::Forbidden), vec![lang(1, None)]);
    assert_eq!(err, Err(ApplicationError::Forbidden));
}
