use vstd::prelude::*;
use crate::ordering::{key_le, stable_sorted, DisplayOrdered};

verus! {

/// A resume.  Dates and timestamps are kept in their ISO 8601 text form.
#[derive(Clone, Debug, PartialEq, Eq)]
pub struct Resume {
    pub id: i32,
    pub name: String,
    pub profile_image_url: Option<String>,
    pub location: Option<String>,
    pub email: String,
    pub github_url: Option<String>,
    pub mobile_number: Option<String>,
    pub created_by: Option<i32>,
    pub is_public: bool,
    pub created_at: String,
    pub updated_at: String,
}

/// A skill listed on a resume.
#[derive(Clone, Debug, PartialEq, Eq)]
pub struct Skill {
    pub id: i32,
    pub resume_id: i32,
    pub skill_name: String,
    pub confidence_percentage: Option<i32>,
    pub display_order: Option<i32>,
}

/// A programming language listed on a resume.
#[derive(Clone, Debug, PartialEq, Eq)]
pub struct Language {
    pub id: i32,
    pub resume_id: i32,
    pub language_name: String,
    pub display_order: Option<i32>,
}

/// A framework of a language.
#[derive(Clone, Debug, PartialEq, Eq)]
pub struct Framework {
    pub id: i32,
    pub language_id: i32,
    pub framework_name: String,
    pub display_order: Option<i32>,
}

/// An education entry of a resume.
#[derive(Clone, Debug, PartialEq, Eq)]
pub struct Education {
    pub id: i32,
    pub resume_id: i32,
    pub education_stage: String,
    pub institution_name: String,
    pub degree: Option<String>,
    pub start_date: Option<String>,
    pub end_date: Option<String>,
    pub description: Option<String>,
    pub display_order: Option<i32>,
}

/// A key point of an education entry.
#[derive(Clone, Debug, PartialEq, Eq)]
pub struct EducationKeyPoint {
    pub id: i32,
    pub education_id: i32,
    pub key_point: String,
    pub display_order: Option<i32>,
}

/// A work experience entry of a resume.
#[derive(Clone, Debug, PartialEq, Eq)]
pub struct WorkExperience {
    pub id: i32,
    pub resume_id: i32,
    pub job_title: String,
    pub company_name: Option<String>,
    pub start_date: Option<String>,
    pub end_date: Option<String>,
    pub description: Option<String>,
    pub display_order: Option<i32>,
}

/// A key point of a work experience entry.
#[derive(Clone, Debug, PartialEq, Eq)]
pub struct WorkExperienceKeyPoint {
    pub id: i32,
    pub work_experience_id: i32,
    pub key_point: String,
    pub display_order: Option<i32>,
}

/// A portfolio project of a resume.
#[derive(Clone, Debug, PartialEq, Eq)]
pub struct PortfolioProject {
    pub id: i32,
    pub resume_id: i32,
    pub project_name: String,
    pub image_url: Option<String>,
    pub project_link: Option<String>,
    pub source_code_link: Option<String>,
    pub description: Option<String>,
    pub display_order: Option<i32>,
}

/// A key point of a portfolio project.
#[derive(Clone, Debug, PartialEq, Eq)]
pub struct PortfolioKeyPoint {
    pub id: i32,
    pub portfolio_project_id: i32,
    pub key_point: String,
    pub display_order: Option<i32>,
}

/// A technology used by a portfolio project.
#[derive(Clone, Debug, PartialEq, Eq)]
pub struct PortfolioTechnology {
    pub id: i32,
    pub portfolio_project_id: i32,
    pub technology_name: String,
    pub display_order: Option<i32>,
}

/// A request to create a resume.
#[derive(Clone, Debug, PartialEq, Eq)]
pub struct NewResumeRequest {
    pub name: String,
    pub profile_image_url: Option<String>,
    pub location: Option<String>,
    pub email: String,
    pub github_url: Option<String>,
    pub mobile_number: Option<String>,
    pub is_public: Option<bool>,
}

/// A resume row to insert.
#[derive(Clone, Debug, PartialEq, Eq)]
pub struct NewResume {
    pub name: String,
    pub profile_image_url: Option<String>,
    pub location: Option<String>,
    pub email: String,
    pub github_url: Option<String>,
    pub mobile_number: Option<String>,
    pub created_by: Option<i32>,
    pub is_public: bool,
}

/// A request to add a work experience entry.
#[derive(Clone, Debug, PartialEq, Eq)]
pub struct NewWorkExperienceRequest {
    pub job_title: String,
    pub company_name: Option<String>,
    pub start_date: Option<String>,
    pub end_date: Option<String>,
    pub description: Option<String>,
    pub display_order: Option<i32>,
}

/// A work experience row to insert.
#[derive(Clone, Debug, PartialEq, Eq)]
pub struct NewWorkExperience {
    pub resume_id: i32,
    pub job_title: String,
    pub company_name: Option<String>,
    pub start_date: Option<String>,
    pub end_date: Option<String>,
    pub description: Option<String>,
    pub display_order: Option<i32>,
}

/// Changes to a work experience entry; `None` leaves a field as it is.
#[derive(Clone, Debug, PartialEq, Eq)]
pub struct UpdateWorkExperience {
    pub job_title: Option<String>,
    pub company_name: Option<Option<String>>,
    pub start_date: Option<Option<String>>,
    pub end_date: Option<Option<String>>,
    pub description: Option<Option<String>>,
    pub display_order: Option<Option<i32>>,
}

/// A request to add a skill.
#[derive(Clone, Debug, PartialEq, Eq)]
pub struct NewSkillRequest {
    pub skill_name: String,
    pub confidence_percentage: Option<i32>,
    pub display_order: Option<i32>,
}

/// The row that adding a skill inserts.
#[derive(Clone, Debug, PartialEq, Eq)]
pub struct NewSkill {
    pub resume_id: i32,
    pub skill_name: String,
    pub confidence_percentage: Option<i32>,
    pub display_order: Option<i32>,
}

/// A request to add a language.
#[derive(Clone, Debug, PartialEq, Eq)]
pub struct NewLanguageRequest {
    pub language_name: String,
    pub display_order: Option<i32>,
}

/// The row that adding a language inserts.
#[derive(Clone, Debug, PartialEq, Eq)]
pub struct NewLanguage {
    pub resume_id: i32,
    pub language_name: String,
    pub display_order: Option<i32>,
}

/// A request to add a framework.
#[derive(Clone, Debug, PartialEq, Eq)]
pub struct NewFrameworkRequest {
    pub framework_name: String,
    pub display_order: Option<i32>,
}

/// The row that adding a framework inserts.
#[derive(Clone, Debug, PartialEq, Eq)]
pub struct NewFramework {
    pub language_id: i32,
    pub framework_name: String,
    pub display_order: Option<i32>,
}

/// A request to add a education entry.
#[derive(Clone, Debug, PartialEq, Eq)]
pub struct NewEducationRequest {
    pub education_stage: String,
    pub institution_name: String,
    pub degree: Option<String>,
    pub start_date: Option<String>,
    pub end_date: Option<String>,
    pub description: Option<String>,
    pub display_order: Option<i32>,
}

/// The row that adding a education entry inserts.
#[derive(Clone, Debug, PartialEq, Eq)]
pub struct NewEducation {
    pub resume_id: i32,
    pub education_stage: String,
    pub institution_name: String,
    pub degree: Option<String>,
    pub start_date: Option<String>,
    pub end_date: Option<String>,
    pub description: Option<String>,
    pub display_order: Option<i32>,
}

/// A request to add a education key point.
#[derive(Clone, Debug, PartialEq, Eq)]
pub struct NewEducationKeyPointRequest {
    pub key_point: String,
    pub display_order: Option<i32>,
}

/// The row that adding a education key point inserts.
#[derive(Clone, Debug, PartialEq, Eq)]
pub struct NewEducationKeyPoint {
    pub education_id: i32,
    pub key_point: String,
    pub display_order: Option<i32>,
}

/// A request to add a work experience key point.
#[derive(Clone, Debug, PartialEq, Eq)]
pub struct NewWorkExperienceKeyPointRequest {
    pub key_point: String,
    pub display_order: Option<i32>,
}

/// The row that adding a work experience key point inserts.
#[derive(Clone, Debug, PartialEq, Eq)]
pub struct NewWorkExperienceKeyPoint {
    pub work_experience_id: i32,
    pub key_point: String,
    pub display_order: Option<i32>,
}

/// A request to add a portfolio project.
#[derive(Clone, Debug, PartialEq, Eq)]
pub struct NewPortfolioProjectRequest {
    pub project_name: String,
    pub image_url: Option<String>,
    pub project_link: Option<String>,
    pub source_code_link: Option<String>,
    pub description: Option<String>,
    pub display_order: Option<i32>,
}

/// The row that adding a portfolio project inserts.
#[derive(Clone, Debug, PartialEq, Eq)]
pub struct NewPortfolioProject {
    pub resume_id: i32,
    pub project_name: String,
    pub image_url: Option<String>,
    pub project_link: Option<String>,
    pub source_code_link: Option<String>,
    pub description: Option<String>,
    pub display_order: Option<i32>,
}

/// A request to add a portfolio key point.
#[derive(Clone, Debug, PartialEq, Eq)]
pub struct NewPortfolioKeyPointRequest {
    pub key_point: String,
    pub display_order: Option<i32>,
}

/// The row that adding a portfolio key point inserts.
#[derive(Clone, Debug, PartialEq, Eq)]
pub struct NewPortfolioKeyPoint {
    pub portfolio_project_id: i32,
    pub key_point: String,
    pub display_order: Option<i32>,
}

/// A request to add a portfolio technology.
#[derive(Clone, Debug, PartialEq, Eq)]
pub struct NewPortfolioTechnologyRequest {
    pub technology_name: String,
    pub display_order: Option<i32>,
}

/// The row that adding a portfolio technology inserts.
#[derive(Clone, Debug, PartialEq, Eq)]
pub struct NewPortfolioTechnology {
    pub portfolio_project_id: i32,
    pub technology_name: String,
    pub display_order: Option<i32>,
}

/// Display position of a record: its `display_order`, 0 when unset.
pub open spec fn position_of(display_order: Option<i32>) -> int {
    match display_order {
        Some(v) => v as int,
        None => 0,
    }
}

fn position_key(display_order: Option<i32>, id: i32) -> (r: (i32, i32))
    ensures
        r.0 as int == position_of(display_order),
        r.1 == id,
{
    match display_order {
        Some(v) => (v, id),
        None => (0, id),
    }
}

impl DisplayOrdered for Resume {
    /// Resumes are listed by id.
    open spec fn sort_key(&self) -> (int, int) {
        (self.id as int, 0)
    }

    fn display_key(&self) -> (r: (i32, i32)) {
        (self.id, 0)
    }
}

impl DisplayOrdered for Skill {
    open spec fn sort_key(&self) -> (int, int) {
        (position_of(self.display_order), self.id as int)
    }

    fn display_key(&self) -> (r: (i32, i32)) {
        position_key(self.display_order, self.id)
    }
}

impl DisplayOrdered for Language {
    open spec fn sort_key(&self) -> (int, int) {
        (position_of(self.display_order), self.id as int)
    }

    fn display_key(&self) -> (r: (i32, i32)) {
        position_key(self.display_order, self.id)
    }
}

impl DisplayOrdered for Framework {
    open spec fn sort_key(&self) -> (int, int) {
        (position_of(self.display_order), self.id as int)
    }

    fn display_key(&self) -> (r: (i32, i32)) {
        position_key(self.display_order, self.id)
    }
}

impl DisplayOrdered for Education {
    open spec fn sort_key(&self) -> (int, int) {
        (position_of(self.display_order), self.id as int)
    }

    fn display_key(&self) -> (r: (i32, i32)) {
        position_key(self.display_order, self.id)
    }
}

impl DisplayOrdered for EducationKeyPoint {
    open spec fn sort_key(&self) -> (int, int) {
        (position_of(self.display_order), self.id as int)
    }

    fn display_key(&self) -> (r: (i32, i32)) {
        position_key(self.display_order, self.id)
    }
}

impl DisplayOrdered for WorkExperience {
    open spec fn sort_key(&self) -> (int, int) {
        (position_of(self.display_order), self.id as int)
    }

    fn display_key(&self) -> (r: (i32, i32)) {
        position_key(self.display_order, self.id)
    }
}

impl DisplayOrdered for WorkExperienceKeyPoint {
    open spec fn sort_key(&self) -> (int, int) {
        (position_of(self.display_order), self.id as int)
    }

    fn display_key(&self) -> (r: (i32, i32)) {
        position_key(self.display_order, self.id)
    }
}

impl DisplayOrdered for PortfolioProject {
    open spec fn sort_key(&self) -> (int, int) {
        (position_of(self.display_order), self.id as int)
    }

    fn display_key(&self) -> (r: (i32, i32)) {
        position_key(self.display_order, self.id)
    }
}

impl DisplayOrdered for PortfolioKeyPoint {
    open spec fn sort_key(&self) -> (int, int) {
        (position_of(self.display_order), self.id as int)
    }

    fn display_key(&self) -> (r: (i32, i32)) {
        position_key(self.display_order, self.id)
    }
}

impl DisplayOrdered for PortfolioTechnology {
    open spec fn sort_key(&self) -> (int, int) {
        (position_of(self.display_order), self.id as int)
    }

    fn display_key(&self) -> (r: (i32, i32)) {
        position_key(self.display_order, self.id)
    }
}

/// Resumes are listed by id, smallest first.
pub proof fn lemma_resumes_listed_by_id(loaded: Seq<Resume>, listed: Seq<Resume>)
    requires
        stable_sorted(loaded, listed),
    ensures
        forall|i: int, j: int| #![trigger listed[i], listed[j]] 0 <= i < j < listed.len() ==> listed[i].id <= listed[j].id,
{
    assert forall|i: int, j: int| #![trigger listed[i], listed[j]] 0 <= i < j < listed.len() implies listed[i].id <= listed[j].id by {
        assert(key_le(listed[i].sort_key(), listed[j].sort_key()));
    }
}

/// Listed skills come in the order their owner chose: by display
/// position (an unset one counts as 0), and among equal positions by id.
pub proof fn lemma_skills_listed_in_display_order(loaded: Seq<Skill>, listed: Seq<Skill>)
    requires
        stable_sorted(loaded, listed),
    ensures
        forall|i: int, j: int| #![trigger listed[i], listed[j]] 0 <= i < j < listed.len() ==>
            position_of(listed[i].display_order) < position_of(listed[j].display_order) || (position_of(listed[i].display_order) == position_of(listed[j].display_order) && listed[i].id <= listed[j].id),
{
    assert forall|i: int, j: int| #![trigger listed[i], listed[j]] 0 <= i < j < listed.len() implies
        position_of(listed[i].display_order) < position_of(listed[j].display_order) || (position_of(listed[i].display_order) == position_of(listed[j].display_order) && listed[i].id <= listed[j].id) by {
        assert(key_le(listed[i].sort_key(), listed[j].sort_key()));
    }
}

/// Listed languages come in the order their owner chose: by display
/// position (an unset one counts as 0), and among equal positions by id.
pub proof fn lemma_languages_listed_in_display_order(loaded: Seq<Language>, listed: Seq<Language>)
    requires
        stable_sorted(loaded, listed),
    ensures
        forall|i: int, j: int| #![trigger listed[i], listed[j]] 0 <= i < j < listed.len() ==>
            position_of(listed[i].display_order) < position_of(listed[j].display_order) || (position_of(listed[i].display_order) == position_of(listed[j].display_order) && listed[i].id <= listed[j].id),
{
    assert forall|i: int, j: int| #![trigger listed[i], listed[j]] 0 <= i < j < listed.len() implies
        position_of(listed[i].display_order) < position_of(listed[j].display_order) || (position_of(listed[i].display_order) == position_of(listed[j].display_order) && listed[i].id <= listed[j].id) by {
        assert(key_le(listed[i].sort_key(), listed[j].sort_key()));
    }
}

/// Listed frameworks come in the order their owner chose: by display
/// position (an unset one counts as 0), and among equal positions by id.
pub proof fn lemma_frameworks_listed_in_display_order(loaded: Seq<Framework>, listed: Seq<Framework>)
    requires
        stable_sorted(loaded, listed),
    ensures
        forall|i: int, j: int| #![trigger listed[i], listed[j]] 0 <= i < j < listed.len() ==>
            position_of(listed[i].display_order) < position_of(listed[j].display_order) || (position_of(listed[i].display_order) == position_of(listed[j].display_order) && listed[i].id <= listed[j].id),
{
    assert forall|i: int, j: int| #![trigger listed[i], listed[j]] 0 <= i < j < listed.len() implies
        position_of(listed[i].display_order) < position_of(listed[j].display_order) || (position_of(listed[i].display_order) == position_of(listed[j].display_order) && listed[i].id <= listed[j].id) by {
        assert(key_le(listed[i].sort_key(), listed[j].sort_key()));
    }
}

/// Listed educations come in the order their owner chose: by display
/// position (an unset one counts as 0), and among equal positions by id.
pub proof fn lemma_educations_listed_in_display_order(loaded: Seq<Education>, listed: Seq<Education>)
    requires
        stable_sorted(loaded, listed),
    ensures
        forall|i: int, j: int| #![trigger listed[i], listed[j]] 0 <= i < j < listed.len() ==>
            position_of(listed[i].display_order) < position_of(listed[j].display_order) || (position_of(listed[i].display_order) == position_of(listed[j].display_order) && listed[i].id <= listed[j].id),
{
    assert forall|i: int, j: int| #![trigger listed[i], listed[j]] 0 <= i < j < listed.len() implies
        position_of(listed[i].display_order) < position_of(listed[j].display_order) || (position_of(listed[i].display_order) == position_of(listed[j].display_order) && listed[i].id <= listed[j].id) by {
        assert(key_le(listed[i].sort_key(), listed[j].sort_key()));
    }
}

/// Listed education key points come in the order their owner chose: by display
/// position (an unset one counts as 0), and among equal positions by id.
pub proof fn lemma_education_key_points_listed_in_display_order(loaded: Seq<EducationKeyPoint>, listed: Seq<EducationKeyPoint>)
    requires
        stable_sorted(loaded, listed),
    ensures
        forall|i: int, j: int| #![trigger listed[i], listed[j]] 0 <= i < j < listed.len() ==>
            position_of(listed[i].display_order) < position_of(listed[j].display_order) || (position_of(listed[i].display_order) == position_of(listed[j].display_order) && listed[i].id <= listed[j].id),
{
    assert forall|i: int, j: int| #![trigger listed[i], listed[j]] 0 <= i < j < listed.len() implies
        position_of(listed[i].display_order) < position_of(listed[j].display_order) || (position_of(listed[i].display_order) == position_of(listed[j].display_order) && listed[i].id <= listed[j].id) by {
        assert(key_le(listed[i].sort_key(), listed[j].sort_key()));
    }
}

/// Listed work experiences come in the order their owner chose: by display
/// position (an unset one counts as 0), and among equal positions by id.
pub proof fn lemma_work_experiences_listed_in_display_order(loaded: Seq<WorkExperience>, listed: Seq<WorkExperience>)
    requires
        stable_sorted(loaded, listed),
    ensures
        forall|i: int, j: int| #![trigger listed[i], listed[j]] 0 <= i < j < listed.len() ==>
            position_of(listed[i].display_order) < position_of(listed[j].display_order) || (position_of(listed[i].display_order) == position_of(listed[j].display_order) && listed[i].id <= listed[j].id),
{
    assert forall|i: int, j: int| #![trigger listed[i], listed[j]] 0 <= i < j < listed.len() implies
        position_of(listed[i].display_order) < position_of(listed[j].display_order) || (position_of(listed[i].display_order) == position_of(listed[j].display_order) && listed[i].id <= listed[j].id) by {
        assert(key_le(listed[i].sort_key(), listed[j].sort_key()));
    }
}

/// Listed work experience key points come in the order their owner chose: by display
/// position (an unset one counts as 0), and among equal positions by id.
pub proof fn lemma_work_experience_key_points_listed_in_display_order(loaded: Seq<WorkExperienceKeyPoint>, listed: Seq<WorkExperienceKeyPoint>)
    requires
        stable_sorted(loaded, listed),
    ensures
        forall|i: int, j: int| #![trigger listed[i], listed[j]] 0 <= i < j < listed.len() ==>
            position_of(listed[i].display_order) < position_of(listed[j].display_order) || (position_of(listed[i].display_order) == position_of(listed[j].display_order) && listed[i].id <= listed[j].id),
{
    assert forall|i: int, j: int| #![trigger listed[i], listed[j]] 0 <= i < j < listed.len() implies
        position_of(listed[i].display_order) < position_of(listed[j].display_order) || (position_of(listed[i].display_order) == position_of(listed[j].display_order) && listed[i].id <= listed[j].id) by {
        assert(key_le(listed[i].sort_key(), listed[j].sort_key()));
    }
}

/// Listed portfolio projects come in the order their owner chose: by display
/// position (an unset one counts as 0), and among equal positions by id.
pub proof fn lemma_portfolio_projects_listed_in_display_order(loaded: Seq<PortfolioProject>, listed: Seq<PortfolioProject>)
    requires
        stable_sorted(loaded, listed),
    ensures
        forall|i: int, j: int| #![trigger listed[i], listed[j]] 0 <= i < j < listed.len() ==>
            position_of(listed[i].display_order) < position_of(listed[j].display_order) || (position_of(listed[i].display_order) == position_of(listed[j].display_order) && listed[i].id <= listed[j].id),
{
    assert forall|i: int, j: int| #![trigger listed[i], listed[j]] 0 <= i < j < listed.len() implies
        position_of(listed[i].display_order) < position_of(listed[j].display_order) || (position_of(listed[i].display_order) == position_of(listed[j].display_order) && listed[i].id <= listed[j].id) by {
        assert(key_le(listed[i].sort_key(), listed[j].sort_key()));
    }
}

/// Listed portfolio key points come in the order their owner chose: by display
/// position (an unset one counts as 0), and among equal positions by id.
pub proof fn lemma_portfolio_key_points_listed_in_display_order(loaded: Seq<PortfolioKeyPoint>, listed: Seq<PortfolioKeyPoint>)
    requires
        stable_sorted(loaded, listed),
    ensures
        forall|i: int, j: int| #![trigger listed[i], listed[j]] 0 <= i < j < listed.len() ==>
            position_of(listed[i].display_order) < position_of(listed[j].display_order) || (position_of(listed[i].display_order) == position_of(listed[j].display_order) && listed[i].id <= listed[j].id),
{
    assert forall|i: int, j: int| #![trigger listed[i], listed[j]] 0 <= i < j < listed.len() implies
        position_of(listed[i].display_order) < position_of(listed[j].display_order) || (position_of(listed[i].display_order) == position_of(listed[j].display_order) && listed[i].id <= listed[j].id) by {
        assert(key_le(listed[i].sort_key(), listed[j].sort_key()));
    }
}

/// Listed portfolio technologies come in the order their owner chose: by display
/// position (an unset one counts as 0), and among equal positions by id.
pub proof fn lemma_portfolio_technologies_listed_in_display_order(loaded: Seq<PortfolioTechnology>, listed: Seq<PortfolioTechnology>)
    requires
        stable_sorted(loaded, listed),
    ensures
        forall|i: int, j: int| #![trigger listed[i], listed[j]] 0 <= i < j < listed.len() ==>
            position_of(listed[i].display_order) < position_of(listed[j].display_order) || (position_of(listed[i].display_order) == position_of(listed[j].display_order) && listed[i].id <= listed[j].id),
{
    assert forall|i: int, j: int| #![trigger listed[i], listed[j]] 0 <= i < j < listed.len() implies
        position_of(listed[i].display_order) < position_of(listed[j].display_order) || (position_of(listed[i].display_order) == position_of(listed[j].display_order) && listed[i].id <= listed[j].id) by {
        assert(key_le(listed[i].sort_key(), listed[j].sort_key()));
    }
}

} // verus!
