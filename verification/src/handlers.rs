use vstd::prelude::*;
use crate::error::{body_of, status_of, AppErr, ApplicationError};
use crate::operation::Outcome;
use crate::realtime::{ResumeChangedAction, SectionType};

verus! {

/// The HTTP endpoints of the API.
#[derive(Clone, Copy, Debug, PartialEq, Eq, Structural)]
pub enum Endpoint {
    Register,
    Login,
    Me,
    Logout,
    ListResumes,
    ListResume,
    CreateResume,
    UpdateResume,
    DeleteResume,
    ListSkills,
    CreateSkill,
    UpdateSkill,
    DeleteSkill,
    ListLanguages,
    CreateLanguage,
    UpdateLanguage,
    DeleteLanguage,
    ListFrameworks,
    CreateFramework,
    UpdateFramework,
    DeleteFramework,
    ListEducations,
    CreateEducation,
    UpdateEducation,
    DeleteEducation,
    ListEducationKeyPoints,
    CreateEducationKeyPoint,
    UpdateEducationKeyPoint,
    DeleteEducationKeyPoint,
    ListWorkExperiences,
    CreateWorkExperience,
    UpdateWorkExperience,
    DeleteWorkExperience,
    ListWorkExperienceKeyPoints,
    CreateWorkExperienceKeyPoint,
    UpdateWorkExperienceKeyPoint,
    DeleteWorkExperienceKeyPoint,
    ListPortfolioProjects,
    CreatePortfolioProject,
    UpdatePortfolioProject,
    DeletePortfolioProject,
    ListPortfolioKeyPoints,
    CreatePortfolioKeyPoint,
    UpdatePortfolioKeyPoint,
    DeletePortfolioKeyPoint,
    ListPortfolioTechnologies,
    CreatePortfolioTechnology,
    UpdatePortfolioTechnology,
    DeletePortfolioTechnology,
}

/// How an endpoint answers a failed request.
#[derive(Clone, Copy, Debug, PartialEq, Eq, Structural)]
pub enum ErrorStyle {
    /// Each error with its own status and message.
    ByKind,
    /// Every error as `401 Invalid credentials`.
    InvalidCredentials,
    /// Every error as `401 Unauthorized`.
    Unauthorized,
    /// Every error as `409`: a conflict with its message, anything else with its debug text.
    AsConflict,
    /// Every error as `500`: an internal error with its message, anything else with its debug text.
    AsInternal,
}

/// Where the resume named by a change notification comes from.
#[derive(Clone, Copy, Debug, PartialEq, Eq, Structural)]
pub enum ResumeSource {
    /// The resume id of the request path.
    Path,
    /// The resume the returned row belongs to (or is).
    Row,
    /// The resume id the service reported.
    Outcome,
}

/// The resume ids a handler knows once its service call returned.
#[derive(Clone, Copy, Debug, PartialEq, Eq, Structural)]
pub struct ResumeIds {
    pub path: Option<i32>,
    pub row: Option<i32>,
    pub outcome: Option<i32>,
}

/// A change notification to publish.
#[derive(Clone, Copy, Debug, PartialEq, Eq, Structural)]
pub struct ChangeNotice {
    pub resume_id: i32,
    pub action: ResumeChangedAction,
}

/// How a handler answers: the status, the message body when it sends a
/// text rather than a row, and the change to publish.
#[derive(Clone, Debug)]
pub struct HandlerReply {
    pub status: u16,
    pub message: Option<String>,
    pub notice: Option<ChangeNotice>,
}

/// Status of a successful request.
pub open spec fn success_status(ep: Endpoint) -> u16 {
    match ep {
        Endpoint::Register | Endpoint::CreateResume | Endpoint::CreateSkill | Endpoint::CreateLanguage
        | Endpoint::CreateFramework | Endpoint::CreateEducation | Endpoint::CreateEducationKeyPoint
        | Endpoint::CreateWorkExperience | Endpoint::CreateWorkExperienceKeyPoint
        | Endpoint::CreatePortfolioProject | Endpoint::CreatePortfolioKeyPoint
        | Endpoint::CreatePortfolioTechnology => 201,
        Endpoint::DeleteResume | Endpoint::DeleteSkill | Endpoint::DeleteLanguage | Endpoint::DeleteFramework
        | Endpoint::DeleteEducation | Endpoint::DeleteEducationKeyPoint | Endpoint::DeleteWorkExperience
        | Endpoint::DeleteWorkExperienceKeyPoint | Endpoint::DeletePortfolioProject
        | Endpoint::DeletePortfolioKeyPoint | Endpoint::DeletePortfolioTechnology => 204,
        _ => 200,
    }
}

/// The text a successful request answers with, when it is not a row.
pub open spec fn success_message(ep: Endpoint) -> Option<Seq<char>> {
    match ep {
        Endpoint::Logout => Some("Logged out"@),
        _ => None,
    }
}

/// How the endpoint answers errors.
pub open spec fn error_style(ep: Endpoint) -> ErrorStyle {
    match ep {
        Endpoint::Login => ErrorStyle::InvalidCredentials,
        Endpoint::Me | Endpoint::Logout => ErrorStyle::Unauthorized,
        Endpoint::CreateResume => ErrorStyle::AsConflict,
        Endpoint::ListResumes => ErrorStyle::AsInternal,
        _ => ErrorStyle::ByKind,
    }
}

/// The change a successful request publishes, and where its resume comes from.
pub open spec fn change_rule(ep: Endpoint) -> Option<(ResumeSource, ResumeChangedAction)> {
    match ep {
        Endpoint::CreateResume => Some((ResumeSource::Row, ResumeChangedAction::Created)),
        Endpoint::UpdateResume => Some((ResumeSource::Row, ResumeChangedAction::Updated(SectionType::PersonalInfo))),
        Endpoint::DeleteResume => Some((ResumeSource::Path, ResumeChangedAction::Deleted)),
        Endpoint::CreateSkill => Some((ResumeSource::Path, ResumeChangedAction::Updated(SectionType::Skills))),
        Endpoint::CreateLanguage => Some((ResumeSource::Path, ResumeChangedAction::Updated(SectionType::Languages))),
        Endpoint::UpdateLanguage => Some((ResumeSource::Row, ResumeChangedAction::Updated(SectionType::Languages))),
        Endpoint::DeleteLanguage => Some((ResumeSource::Outcome, ResumeChangedAction::Updated(SectionType::Languages))),
        Endpoint::CreateFramework => Some((ResumeSource::Path, ResumeChangedAction::Updated(SectionType::Frameworks))),
        Endpoint::UpdateFramework => Some((ResumeSource::Outcome, ResumeChangedAction::Updated(SectionType::Frameworks))),
        Endpoint::DeleteFramework => Some((ResumeSource::Outcome, ResumeChangedAction::Updated(SectionType::Frameworks))),
        Endpoint::CreateWorkExperience => Some((ResumeSource::Path, ResumeChangedAction::Updated(SectionType::Experience))),
        Endpoint::UpdateWorkExperience => Some((ResumeSource::Row, ResumeChangedAction::Updated(SectionType::Experience))),
        Endpoint::DeleteWorkExperience => Some((ResumeSource::Outcome, ResumeChangedAction::Updated(SectionType::Experience))),
        Endpoint::CreateWorkExperienceKeyPoint => Some((ResumeSource::Path, ResumeChangedAction::Updated(SectionType::Experience))),
        Endpoint::UpdateWorkExperienceKeyPoint => Some((ResumeSource::Outcome, ResumeChangedAction::Updated(SectionType::Experience))),
        Endpoint::DeleteWorkExperienceKeyPoint => Some((ResumeSource::Outcome, ResumeChangedAction::Updated(SectionType::Experience))),
        _ => None,
    }
}

/// The resume id a source gives.
pub open spec fn id_from(src: ResumeSource, ids: ResumeIds) -> Option<i32> {
    match src {
        ResumeSource::Path => ids.path,
        ResumeSource::Row => ids.row,
        ResumeSource::Outcome => ids.outcome,
    }
}

/// The notice a successful request publishes.
pub open spec fn notice_for(ep: Endpoint, ids: ResumeIds) -> Option<ChangeNotice> {
    match change_rule(ep) {
        Some((src, action)) => match id_from(src, ids) {
            Some(r) => Some(ChangeNotice { resume_id: r, action }),
            None => None,
        },
        None => None,
    }
}

/// What `Debug` of a `str` prints: the text quoted, with `char::escape_debug` escapes.
pub uninterp spec fn str_debug_text(s: Seq<char>) -> Seq<char>;

/// The text the derived `Debug` of an application error prints: the
/// variant's name, with the message's `Debug` text in parentheses.
pub open spec fn error_debug_text(e: AppErr) -> Seq<char> {
    match e {
        AppErr::Unauthorized => "Unauthorized"@,
        AppErr::Forbidden => "Forbidden"@,
        AppErr::NotFound(m) => "NotFound("@ + str_debug_text(m) + ")"@,
        AppErr::Conflict(m) => "Conflict("@ + str_debug_text(m) + ")"@,
        AppErr::BadRequest(m) => "BadRequest("@ + str_debug_text(m) + ")"@,
        AppErr::Internal(m) => "Internal("@ + str_debug_text(m) + ")"@,
    }
}

/// Status and body with which an endpoint answers an error.
pub open spec fn error_reply(style: ErrorStyle, e: AppErr) -> (u16, Seq<char>) {
    match style {
        ErrorStyle::ByKind => (status_of(e), body_of(e)),
        ErrorStyle::InvalidCredentials => (401, "Invalid credentials"@),
        ErrorStyle::Unauthorized => (401, "Unauthorized"@),
        ErrorStyle::AsConflict => match e {
            AppErr::Conflict(m) => (409, m),
            _ => (409, error_debug_text(e)),
        },
        ErrorStyle::AsInternal => match e {
            AppErr::Internal(m) => (500, m),
            _ => (500, error_debug_text(e)),
        },
    }
}

/// View of an optional text.
pub open spec fn message_view(m: Option<String>) -> Option<Seq<char>> {
    match m {
        Some(s) => Some(s@),
        None => None,
    }
}

/// Calls std's `Debug` of a `str` through `format!`; the contract names the text.
#[verifier::external_body]
fn str_debug(s: &str) -> (r: String)
    ensures
        r@ == str_debug_text(s@),
{
    format!("{:?}", s)
}

/// The debug text of an application error, as its derived `Debug` prints it.
pub fn debug_text(err: &ApplicationError) -> (r: String)
    ensures
        r@ == error_debug_text(err@),
{
    let (name, message) = match err {
        ApplicationError::Unauthorized => return String::from_str("Unauthorized"),
        ApplicationError::Forbidden => return String::from_str("Forbidden"),
        ApplicationError::NotFound(m) => ("NotFound(", m),
        ApplicationError::Conflict(m) => ("Conflict(", m),
        ApplicationError::BadRequest(m) => ("BadRequest(", m),
        ApplicationError::Internal(m) => ("Internal(", m),
    };
    let quoted = str_debug(message.as_str());
    let r = String::from_str(name).concat(quoted.as_str()).concat(")");
    proof {
        reveal_strlit("NotFound(");
        reveal_strlit("Conflict(");
        reveal_strlit("BadRequest(");
        reveal_strlit("Internal(");
        reveal_strlit(")");
    }
    r
}

impl Endpoint {
    /// Status of a successful request.
    pub fn success_status(&self) -> (r: u16)
        ensures
            r == success_status(*self),
    {
        match self {
            Endpoint::Register | Endpoint::CreateResume | Endpoint::CreateSkill | Endpoint::CreateLanguage
            | Endpoint::CreateFramework | Endpoint::CreateEducation | Endpoint::CreateEducationKeyPoint
            | Endpoint::CreateWorkExperience | Endpoint::CreateWorkExperienceKeyPoint
            | Endpoint::CreatePortfolioProject | Endpoint::CreatePortfolioKeyPoint
            | Endpoint::CreatePortfolioTechnology => 201,
            Endpoint::DeleteResume | Endpoint::DeleteSkill | Endpoint::DeleteLanguage | Endpoint::DeleteFramework
            | Endpoint::DeleteEducation | Endpoint::DeleteEducationKeyPoint | Endpoint::DeleteWorkExperience
            | Endpoint::DeleteWorkExperienceKeyPoint | Endpoint::DeletePortfolioProject
            | Endpoint::DeletePortfolioKeyPoint | Endpoint::DeletePortfolioTechnology => 204,
            _ => 200,
        }
    }

    /// How the endpoint answers errors.
    pub fn error_style(&self) -> (r: ErrorStyle)
        ensures
            r == error_style(*self),
    {
        match self {
            Endpoint::Login => ErrorStyle::InvalidCredentials,
            Endpoint::Me | Endpoint::Logout => ErrorStyle::Unauthorized,
            Endpoint::CreateResume => ErrorStyle::AsConflict,
            Endpoint::ListResumes => ErrorStyle::AsInternal,
            _ => ErrorStyle::ByKind,
        }
    }

    /// The change a successful request publishes, and where its resume comes from.
    pub fn change_rule(&self) -> (r: Option<(ResumeSource, ResumeChangedAction)>)
        ensures
            r == change_rule(*self),
    {
        let experience = ResumeChangedAction::Updated(SectionType::Experience);
        let languages = ResumeChangedAction::Updated(SectionType::Languages);
        let frameworks = ResumeChangedAction::Updated(SectionType::Frameworks);
        match self {
            Endpoint::CreateResume => Some((ResumeSource::Row, ResumeChangedAction::Created)),
            Endpoint::UpdateResume => Some((ResumeSource::Row, ResumeChangedAction::Updated(SectionType::PersonalInfo))),
            Endpoint::DeleteResume => Some((ResumeSource::Path, ResumeChangedAction::Deleted)),
            Endpoint::CreateSkill => Some((ResumeSource::Path, ResumeChangedAction::Updated(SectionType::Skills))),
            Endpoint::CreateLanguage => Some((ResumeSource::Path, languages)),
            Endpoint::UpdateLanguage => Some((ResumeSource::Row, languages)),
            Endpoint::DeleteLanguage => Some((ResumeSource::Outcome, languages)),
            Endpoint::CreateFramework => Some((ResumeSource::Path, frameworks)),
            Endpoint::UpdateFramework => Some((ResumeSource::Outcome, frameworks)),
            Endpoint::DeleteFramework => Some((ResumeSource::Outcome, frameworks)),
            Endpoint::CreateWorkExperience => Some((ResumeSource::Path, experience)),
            Endpoint::UpdateWorkExperience => Some((ResumeSource::Row, experience)),
            Endpoint::DeleteWorkExperience => Some((ResumeSource::Outcome, experience)),
            Endpoint::CreateWorkExperienceKeyPoint => Some((ResumeSource::Path, experience)),
            Endpoint::UpdateWorkExperienceKeyPoint => Some((ResumeSource::Outcome, experience)),
            Endpoint::DeleteWorkExperienceKeyPoint => Some((ResumeSource::Outcome, experience)),
            _ => None,
        }
    }
}

/// The resume id a finished operation reported, if any.
pub fn outcome_resume_id(o: Outcome) -> (r: Option<i32>)
    ensures
        r == match o {
            Outcome::ResumeId(id) => Some(id),
            Outcome::RowAndResumeId(id) => Some(id),
            _ => None::<i32>,
        },
{
    match o {
        Outcome::ResumeId(id) => Some(id),
        Outcome::RowAndResumeId(id) => Some(id),
        _ => None,
    }
}

/// Status and body with which an endpoint answers an error.
pub fn error_reply_for(style: ErrorStyle, err: &ApplicationError) -> (r: (u16, String))
    ensures
        (r.0, r.1@) == error_reply(style, err@),
{
    match style {
        ErrorStyle::ByKind => {
            let resp = crate::error::error_response(err);
            (resp.status, resp.body)
        },
        ErrorStyle::InvalidCredentials => (401, String::from_str("Invalid credentials")),
        ErrorStyle::Unauthorized => (401, String::from_str("Unauthorized")),
        ErrorStyle::AsConflict => match err {
            ApplicationError::Conflict(m) => (409, m.clone()),
            _ => (409, debug_text(err)),
        },
        ErrorStyle::AsInternal => match err {
            ApplicationError::Internal(m) => (500, m.clone()),
            _ => (500, debug_text(err)),
        },
    }
}

/// How the handler of `endpoint` answers the service's result: on success
/// its status, fixed text if any, and the change to publish; on failure the
/// status and message of its error style, and nothing to publish.
pub fn respond<T>(endpoint: Endpoint, ids: ResumeIds, result: &Result<T, ApplicationError>) -> (r: HandlerReply)
    ensures
        match result {
            Ok(_) => {
                &&& r.status == success_status(endpoint)
                &&& message_view(r.message) == success_message(endpoint)
                &&& r.notice == notice_for(endpoint, ids)
            },
            Err(e) => {
                &&& r.status == error_reply(error_style(endpoint), e@).0
                &&& message_view(r.message) == Some(error_reply(error_style(endpoint), e@).1)
                &&& r.notice is None
            },
        },
{
    match result {
        Ok(_) => {
            let message = match endpoint {
                Endpoint::Logout => Some(String::from_str("Logged out")),
                _ => None,
            };
            let notice = match endpoint.change_rule() {
                Some((src, action)) => {
                    let id = match src {
                        ResumeSource::Path => ids.path,
                        ResumeSource::Row => ids.row,
                        ResumeSource::Outcome => ids.outcome,
                    };
                    match id {
                        Some(resume_id) => Some(ChangeNotice { resume_id, action }),
                        None => None,
                    }
                },
                None => None,
            };
            HandlerReply { status: endpoint.success_status(), message, notice }
        },
        Err(e) => {
            let (status, body) = error_reply_for(endpoint.error_style(), e);
            HandlerReply { status, message: Some(body), notice: None }
        },
    }
}

/// The notice for a change of `resume`, when that resume is known.
pub open spec fn notice_on(resume: Option<i32>, action: ResumeChangedAction) -> Option<ChangeNotice> {
    match resume {
        Some(r) => Some(ChangeNotice { resume_id: r, action }),
        None => None,
    }
}

/// Each successful change to a resume is published to that resume's
/// subscribers: creating, updating or deleting the resume itself, adding a
/// skill, and adding, changing or removing a language, a framework, a work
/// experience or one of its key points, each with its action and the resume
/// it changed (from the request path, the returned row or the service's
/// report).
pub proof fn lemma_successful_changes_are_published(ids: ResumeIds)
    ensures
        notice_for(Endpoint::CreateResume, ids) == notice_on(ids.row, ResumeChangedAction::Created),
        notice_for(Endpoint::UpdateResume, ids) == notice_on(ids.row, ResumeChangedAction::Updated(SectionType::PersonalInfo)),
        notice_for(Endpoint::DeleteResume, ids) == notice_on(ids.path, ResumeChangedAction::Deleted),
        notice_for(Endpoint::CreateSkill, ids) == notice_on(ids.path, ResumeChangedAction::Updated(SectionType::Skills)),
        notice_for(Endpoint::CreateLanguage, ids) == notice_on(ids.path, ResumeChangedAction::Updated(SectionType::Languages)),
        notice_for(Endpoint::UpdateLanguage, ids) == notice_on(ids.row, ResumeChangedAction::Updated(SectionType::Languages)),
        notice_for(Endpoint::DeleteLanguage, ids) == notice_on(ids.outcome, ResumeChangedAction::Updated(SectionType::Languages)),
        notice_for(Endpoint::CreateFramework, ids) == notice_on(ids.path, ResumeChangedAction::Updated(SectionType::Frameworks)),
        notice_for(Endpoint::UpdateFramework, ids) == notice_on(ids.outcome, ResumeChangedAction::Updated(SectionType::Frameworks)),
        notice_for(Endpoint::DeleteFramework, ids) == notice_on(ids.outcome, ResumeChangedAction::Updated(SectionType::Frameworks)),
        notice_for(Endpoint::CreateWorkExperience, ids) == notice_on(ids.path, ResumeChangedAction::Updated(SectionType::Experience)),
        notice_for(Endpoint::UpdateWorkExperience, ids) == notice_on(ids.row, ResumeChangedAction::Updated(SectionType::Experience)),
        notice_for(Endpoint::DeleteWorkExperience, ids) == notice_on(ids.outcome, ResumeChangedAction::Updated(SectionType::Experience)),
        notice_for(Endpoint::CreateWorkExperienceKeyPoint, ids) == notice_on(ids.path, ResumeChangedAction::Updated(SectionType::Experience)),
        notice_for(Endpoint::UpdateWorkExperienceKeyPoint, ids) == notice_on(ids.outcome, ResumeChangedAction::Updated(SectionType::Experience)),
        notice_for(Endpoint::DeleteWorkExperienceKeyPoint, ids) == notice_on(ids.outcome, ResumeChangedAction::Updated(SectionType::Experience)),
{
}

/// Reads, sign-in and the remaining sections publish nothing.
pub proof fn lemma_other_requests_publish_nothing(ids: ResumeIds)
    ensures
        notice_for(Endpoint::Register, ids) is None,
        notice_for(Endpoint::Login, ids) is None,
        notice_for(Endpoint::Me, ids) is None,
        notice_for(Endpoint::Logout, ids) is None,
        notice_for(Endpoint::ListResumes, ids) is None,
        notice_for(Endpoint::ListResume, ids) is None,
        notice_for(Endpoint::ListSkills, ids) is None,
        notice_for(Endpoint::UpdateSkill, ids) is None,
        notice_for(Endpoint::DeleteSkill, ids) is None,
        notice_for(Endpoint::ListLanguages, ids) is None,
        notice_for(Endpoint::ListFrameworks, ids) is None,
        notice_for(Endpoint::ListEducations, ids) is None,
        notice_for(Endpoint::CreateEducation, ids) is None,
        notice_for(Endpoint::UpdateEducation, ids) is None,
        notice_for(Endpoint::DeleteEducation, ids) is None,
        notice_for(Endpoint::ListEducationKeyPoints, ids) is None,
        notice_for(Endpoint::CreateEducationKeyPoint, ids) is None,
        notice_for(Endpoint::UpdateEducationKeyPoint, ids) is None,
        notice_for(Endpoint::DeleteEducationKeyPoint, ids) is None,
        notice_for(Endpoint::ListWorkExperiences, ids) is None,
        notice_for(Endpoint::ListWorkExperienceKeyPoints, ids) is None,
        notice_for(Endpoint::ListPortfolioProjects, ids) is None,
        notice_for(Endpoint::CreatePortfolioProject, ids) is None,
        notice_for(Endpoint::UpdatePortfolioProject, ids) is None,
        notice_for(Endpoint::DeletePortfolioProject, ids) is None,
        notice_for(Endpoint::ListPortfolioKeyPoints, ids) is None,
        notice_for(Endpoint::CreatePortfolioKeyPoint, ids) is None,
        notice_for(Endpoint::UpdatePortfolioKeyPoint, ids) is None,
        notice_for(Endpoint::DeletePortfolioKeyPoint, ids) is None,
        notice_for(Endpoint::ListPortfolioTechnologies, ids) is None,
        notice_for(Endpoint::CreatePortfolioTechnology, ids) is None,
        notice_for(Endpoint::UpdatePortfolioTechnology, ids) is None,
        notice_for(Endpoint::DeletePortfolioTechnology, ids) is None,
{
}

} // verus!
