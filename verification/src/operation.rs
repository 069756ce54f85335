use vstd::prelude::*;
use crate::ordering::{sort_for_display, stable_sorted, DisplayOrdered};
use crate::error::{
    app_err_from_diesel_err, database_error, database_error_text, db_error_display, db_error_text,
    generic_db_failure, AppErr, ApplicationError, DbErr, DbError,
};

verus! {

/// Tables of the resume database.
#[derive(Clone, Copy, Debug, PartialEq, Eq, Structural)]
pub enum Table {
    Resumes,
    Skills,
    Languages,
    Frameworks,
    Education,
    EducationKeyPoints,
    WorkExperiences,
    WorkExperienceKeyPoints,
    PortfolioProjects,
    PortfolioKeyPoints,
    PortfolioTechnologies,
}

/// How a failed query is answered.
#[derive(Clone, Debug)]
pub enum OnFailure {
    /// The generic translation ([`app_err_from_diesel_err`]).
    Generic,
    /// Every failure is internal.
    Internal,
    /// A missing record is `NotFound(message)`; any other failure is internal.
    Missing(String),
    /// A missing record is `NotFound(message)`; any other failure is translated generically.
    MissingElseGeneric(String),
    /// A missing record is `NotFound(message)`; the service does not handle other failures.
    Abort(String),
}

/// Mathematical view of an [`OnFailure`].
pub enum FailureRule {
    Generic,
    Internal,
    Missing(Seq<char>),
    MissingElseGeneric(Seq<char>),
    Abort(Seq<char>),
}

impl View for OnFailure {
    type V = FailureRule;

    open spec fn view(&self) -> FailureRule {
        match self {
            OnFailure::Generic => FailureRule::Generic,
            OnFailure::Internal => FailureRule::Internal,
            OnFailure::Missing(m) => FailureRule::Missing(m@),
            OnFailure::MissingElseGeneric(m) => FailureRule::MissingElseGeneric(m@),
            OnFailure::Abort(m) => FailureRule::Abort(m@),
        }
    }
}

/// Where the id a step works on comes from.
#[derive(Clone, Copy, Debug, PartialEq, Eq, Structural)]
pub enum IdSource {
    /// An id given by the caller.
    Given(i32),
    /// The parent id of the row fetched by an earlier step.
    ParentOf(usize),
}

/// One step of a service operation.
#[derive(Clone, Debug)]
pub enum Step {
    /// Fetch a row by id; when `in_resume` is set, only a row of that resume.
    Fetch { table: Table, id: IdSource, in_resume: Option<i32>, on_failure: OnFailure },
    /// The resume fetched by an earlier step must be visible to the caller;
    /// a hidden resume is answered as a missing one.
    RequireVisible { resume_step: usize, on_hidden: OnFailure },
    /// The resume fetched by an earlier step must belong to the caller.
    RequireOwner { resume_step: usize },
    /// Insert the new row.
    Insert { table: Table, on_failure: OnFailure },
    /// Update a row.
    Update { table: Table, id: IdSource, on_failure: OnFailure },
    /// Delete a row; deleting nothing is `NotFound(nothing_deleted)`.
    Delete { table: Table, id: IdSource, on_failure: OnFailure, nothing_deleted: String },
    /// Load the rows belonging to a parent row.
    Load { table: Table, parent: IdSource, on_failure: OnFailure },
}

/// Mathematical view of a [`Step`].
pub enum StepView {
    Fetch { table: Table, id: IdSource, in_resume: Option<i32>, on_failure: FailureRule },
    RequireVisible { resume_step: usize, on_hidden: FailureRule },
    RequireOwner { resume_step: usize },
    Insert { table: Table, on_failure: FailureRule },
    Update { table: Table, id: IdSource, on_failure: FailureRule },
    Delete { table: Table, id: IdSource, on_failure: FailureRule, nothing_deleted: Seq<char> },
    Load { table: Table, parent: IdSource, on_failure: FailureRule },
}

impl View for Step {
    type V = StepView;

    open spec fn view(&self) -> StepView {
        match self {
            Step::Fetch { table, id, in_resume, on_failure } => StepView::Fetch {
                table: *table,
                id: *id,
                in_resume: *in_resume,
                on_failure: on_failure@,
            },
            Step::RequireVisible { resume_step, on_hidden } => StepView::RequireVisible {
                resume_step: *resume_step,
                on_hidden: on_hidden@,
            },
            Step::RequireOwner { resume_step } => StepView::RequireOwner { resume_step: *resume_step },
            Step::Insert { table, on_failure } => StepView::Insert { table: *table, on_failure: on_failure@ },
            Step::Update { table, id, on_failure } => StepView::Update {
                table: *table,
                id: *id,
                on_failure: on_failure@,
            },
            Step::Delete { table, id, on_failure, nothing_deleted } => StepView::Delete {
                table: *table,
                id: *id,
                on_failure: on_failure@,
                nothing_deleted: nothing_deleted@,
            },
            Step::Load { table, parent, on_failure } => StepView::Load {
                table: *table,
                parent: *parent,
                on_failure: on_failure@,
            },
        }
    }
}

/// What a finished operation returns.
#[derive(Clone, Copy, Debug, PartialEq, Eq, Structural)]
pub enum Finish {
    /// Nothing.
    Nothing,
    /// The parent id of the row fetched by the given step.
    ParentOf(usize),
    /// The written row.
    Row,
    /// The written row and the parent id of the row fetched by the given step.
    RowAndParentOf(usize),
    /// The loaded rows, in display order.
    Rows,
}

/// Result of a successful operation.
#[derive(Clone, Copy, Debug, PartialEq, Eq, Structural)]
pub enum Outcome {
    Nothing,
    ResumeId(i32),
    Row,
    RowAndResumeId(i32),
    Rows,
}

/// What a fetch found.
#[derive(Clone, Copy, Debug, PartialEq, Eq)]
pub enum RowRef {
    /// A resume, with its owner and visibility.
    Resume { created_by: Option<i32>, is_public: bool },
    /// Any other row, with the id of the row it belongs to.
    Child { parent: i32 },
}

/// The database's answer to a request.
#[derive(Clone, Debug)]
pub enum Reply {
    Found(RowRef),
    Written,
    Deleted(u64),
    Loaded,
    Failed(DbError),
}

/// Mathematical view of a [`Reply`].
pub enum ReplyView {
    Found(RowRef),
    Written,
    Deleted(u64),
    Loaded,
    Failed(DbErr),
}

impl View for Reply {
    type V = ReplyView;

    open spec fn view(&self) -> ReplyView {
        match self {
            Reply::Found(r) => ReplyView::Found(*r),
            Reply::Written => ReplyView::Written,
            Reply::Deleted(n) => ReplyView::Deleted(*n),
            Reply::Loaded => ReplyView::Loaded,
            Reply::Failed(e) => ReplyView::Failed(e@),
        }
    }
}

/// A query the caller must run against the database and answer with a [`Reply`].
#[derive(Clone, Copy, Debug, PartialEq, Eq, Structural)]
pub enum DbRequest {
    Fetch { table: Table, id: i32, in_resume: Option<i32> },
    Insert { table: Table },
    Update { table: Table, id: i32 },
    Delete { table: Table, id: i32 },
    Load { table: Table, parent_id: i32 },
}

/// A service operation in progress: its plan, how far it got, what the
/// fetches found, and its result once finished.
pub struct Operation {
    user: Option<i32>,
    steps: Vec<Step>,
    finish: Finish,
    pos: usize,
    seen: Vec<Option<RowRef>>,
    result: Option<Result<Outcome, ApplicationError>>,
}

/// Mathematical view of an [`Operation`].
pub struct OpView {
    pub user: Option<i32>,
    pub plan: Seq<StepView>,
    pub finish: Finish,
    pub pos: nat,
    pub seen: Seq<Option<RowRef>>,
    pub result: Option<Result<Outcome, AppErr>>,
}

/// View of an optional service result.
pub open spec fn result_view(r: Option<Result<Outcome, ApplicationError>>) -> Option<Result<Outcome, AppErr>> {
    match r {
        Some(Ok(o)) => Some(Ok(o)),
        Some(Err(e)) => Some(Err(e@)),
        None => None,
    }
}

impl View for Operation {
    type V = OpView;

    closed spec fn view(&self) -> OpView {
        OpView {
            user: self.user,
            plan: self.steps@.map_values(|s: Step| s@),
            finish: self.finish,
            pos: self.pos as nat,
            seen: self.seen@,
            result: result_view(self.result),
        }
    }
}

// ---------------------------------------------------------------------------
// The rules
// ---------------------------------------------------------------------------

/// The error a failed query is answered with.
pub open spec fn failure_error(rule: FailureRule, e: DbErr) -> AppErr {
    match rule {
        FailureRule::Generic => generic_db_failure(e),
        FailureRule::Internal => AppErr::Internal(database_error_text(db_error_text(e))),
        FailureRule::Missing(m) => match e {
            DbErr::NotFound => AppErr::NotFound(m),
            _ => AppErr::Internal(database_error_text(db_error_text(e))),
        },
        FailureRule::MissingElseGeneric(m) => match e {
            DbErr::NotFound => AppErr::NotFound(m),
            _ => generic_db_failure(e),
        },
        FailureRule::Abort(m) => AppErr::NotFound(m),
    }
}

/// A resume can be read by the public when it is public, and by its owner.
pub open spec fn visible_to(created_by: Option<i32>, is_public: bool, viewer: Option<i32>) -> bool {
    is_public || (viewer is Some && created_by == viewer)
}

/// A resume may be changed only by the signed-in user who created it.
pub open spec fn owned_by(created_by: Option<i32>, user: Option<i32>) -> bool {
    user is Some && created_by == user
}

/// The parent id recorded for a fetched row.
pub open spec fn parent_id(r: Option<RowRef>) -> i32 {
    match r {
        Some(RowRef::Child { parent }) => parent,
        _ => 0,
    }
}

/// The concrete id of a step.
pub open spec fn resolve(src: IdSource, seen: Seq<Option<RowRef>>) -> i32 {
    match src {
        IdSource::Given(i) => i,
        IdSource::ParentOf(k) => parent_id(seen[k as int]),
    }
}

/// The result of an operation whose steps all succeeded.
pub open spec fn outcome_of(finish: Finish, seen: Seq<Option<RowRef>>) -> Outcome {
    match finish {
        Finish::Nothing => Outcome::Nothing,
        Finish::ParentOf(k) => Outcome::ResumeId(parent_id(seen[k as int])),
        Finish::Row => Outcome::Row,
        Finish::RowAndParentOf(k) => Outcome::RowAndResumeId(parent_id(seen[k as int])),
        Finish::Rows => Outcome::Rows,
    }
}

/// Steps that need the database.
pub open spec fn is_db_step(s: StepView) -> bool {
    !(s is RequireVisible || s is RequireOwner)
}

/// The state after moving past the current step.
pub open spec fn passed(s: OpView, found: Option<RowRef>) -> OpView {
    OpView { pos: s.pos + 1, seen: s.seen.push(found), ..s }
}

/// The state of a failed operation.
pub open spec fn failed(s: OpView, e: AppErr) -> OpView {
    OpView { result: Some(Err(e)), ..s }
}

/// Runs the checks that follow, up to the next step that needs the
/// database; an operation with no steps left succeeds.
pub open spec fn settle(s: OpView) -> OpView
    decreases s.plan.len() - s.pos,
{
    if s.result is Some {
        s
    } else if s.pos >= s.plan.len() {
        OpView { result: Some(Ok(outcome_of(s.finish, s.seen))), ..s }
    } else {
        match s.plan[s.pos as int] {
            StepView::RequireOwner { resume_step } => match s.seen[resume_step as int] {
                Some(RowRef::Resume { created_by, is_public }) => if owned_by(created_by, s.user) {
                    settle(passed(s, None))
                } else {
                    failed(s, AppErr::Forbidden)
                },
                _ => failed(s, AppErr::Forbidden),
            },
            StepView::RequireVisible { resume_step, on_hidden } => match s.seen[resume_step as int] {
                Some(RowRef::Resume { created_by, is_public }) => if visible_to(
                    created_by,
                    is_public,
                    s.user,
                ) {
                    settle(passed(s, None))
                } else {
                    failed(s, failure_error(on_hidden, DbErr::NotFound))
                },
                _ => failed(s, failure_error(on_hidden, DbErr::NotFound)),
            },
            _ => s,
        }
    }
}

/// The state after the database answered the current request.
pub open spec fn after_reply(s: OpView, reply: ReplyView) -> OpView {
    match s.plan[s.pos as int] {
        StepView::Fetch { on_failure, .. } => match reply {
            ReplyView::Found(r) => settle(passed(s, Some(r))),
            ReplyView::Failed(e) => failed(s, failure_error(on_failure, e)),
            _ => s,
        },
        StepView::Insert { on_failure, .. } => match reply {
            ReplyView::Written => settle(passed(s, None)),
            ReplyView::Failed(e) => failed(s, failure_error(on_failure, e)),
            _ => s,
        },
        StepView::Update { on_failure, .. } => match reply {
            ReplyView::Written => settle(passed(s, None)),
            ReplyView::Failed(e) => failed(s, failure_error(on_failure, e)),
            _ => s,
        },
        StepView::Delete { on_failure, nothing_deleted, .. } => match reply {
            ReplyView::Deleted(n) => if n == 0 {
                failed(s, AppErr::NotFound(nothing_deleted))
            } else {
                settle(passed(s, None))
            },
            ReplyView::Failed(e) => failed(s, failure_error(on_failure, e)),
            _ => s,
        },
        StepView::Load { on_failure, .. } => match reply {
            ReplyView::Loaded => settle(passed(s, None)),
            ReplyView::Failed(e) => failed(s, failure_error(on_failure, e)),
            _ => s,
        },
        _ => s,
    }
}

/// The request an unfinished operation waits on.
pub open spec fn request_of(s: OpView) -> Option<DbRequest> {
    if s.result is Some || s.pos >= s.plan.len() {
        None
    } else {
        match s.plan[s.pos as int] {
            StepView::Fetch { table, id, in_resume, .. } => Some(
                DbRequest::Fetch { table, id: resolve(id, s.seen), in_resume },
            ),
            StepView::Insert { table, .. } => Some(DbRequest::Insert { table }),
            StepView::Update { table, id, .. } => Some(DbRequest::Update { table, id: resolve(id, s.seen) }),
            StepView::Delete { table, id, .. } => Some(DbRequest::Delete { table, id: resolve(id, s.seen) }),
            StepView::Load { table, parent, .. } => Some(
                DbRequest::Load { table, parent_id: resolve(parent, s.seen) },
            ),
            _ => None,
        }
    }
}

/// The answers the database can give to the current step.
pub open spec fn reply_fits(s: OpView, reply: ReplyView) -> bool {
    match s.plan[s.pos as int] {
        StepView::Fetch { table, on_failure, .. } => match reply {
            ReplyView::Found(r) => (table == Table::Resumes) == (r is Resume),
            ReplyView::Failed(e) => on_failure is Abort ==> e is NotFound,
            _ => false,
        },
        StepView::Insert { on_failure, .. } => match reply {
            ReplyView::Written => true,
            ReplyView::Failed(e) => on_failure is Abort ==> e is NotFound,
            _ => false,
        },
        StepView::Update { on_failure, .. } => match reply {
            ReplyView::Written => true,
            ReplyView::Failed(e) => on_failure is Abort ==> e is NotFound,
            _ => false,
        },
        StepView::Delete { on_failure, .. } => match reply {
            ReplyView::Deleted(_) => true,
            ReplyView::Failed(e) => on_failure is Abort ==> e is NotFound,
            _ => false,
        },
        StepView::Load { on_failure, .. } => match reply {
            ReplyView::Loaded => true,
            ReplyView::Failed(e) => on_failure is Abort ==> e is NotFound,
            _ => false,
        },
        _ => false,
    }
}

// ---------------------------------------------------------------------------
// Well-formed plans and states
// ---------------------------------------------------------------------------

/// `src` names a row fetched before step `i` that has a parent.
pub open spec fn source_ok(plan: Seq<StepView>, src: IdSource, i: int) -> bool {
    match src {
        IdSource::Given(_) => true,
        IdSource::ParentOf(k) => {
            &&& k < i
            &&& plan[k as int] matches StepView::Fetch { table, .. }
            &&& table != Table::Resumes
        },
    }
}

/// Step `k` fetches a resume and comes before step `i`.
pub open spec fn resume_fetch_before(plan: Seq<StepView>, k: usize, i: int) -> bool {
    &&& k < i
    &&& plan[k as int] matches StepView::Fetch { table, .. }
    &&& table == Table::Resumes
}

/// Every reference of step `i` points back to a suitable earlier fetch.
pub open spec fn step_ok(plan: Seq<StepView>, i: int) -> bool {
    match plan[i] {
        StepView::Fetch { id, .. } => source_ok(plan, id, i),
        StepView::RequireVisible { resume_step, .. } => resume_fetch_before(plan, resume_step, i),
        StepView::RequireOwner { resume_step } => resume_fetch_before(plan, resume_step, i),
        StepView::Insert { .. } => true,
        StepView::Update { id, .. } => source_ok(plan, id, i),
        StepView::Delete { id, .. } => source_ok(plan, id, i),
        StepView::Load { parent, .. } => source_ok(plan, parent, i),
    }
}

/// A plan whose references all point back to suitable earlier fetches.
pub open spec fn plan_ok(plan: Seq<StepView>, finish: Finish) -> bool {
    &&& forall|i: int| 0 <= i < plan.len() ==> #[trigger] step_ok(plan, i)
    &&& match finish {
        Finish::ParentOf(k) => source_ok(plan, IdSource::ParentOf(k), plan.len() as int),
        Finish::RowAndParentOf(k) => source_ok(plan, IdSource::ParentOf(k), plan.len() as int),
        _ => true,
    }
}

/// What a step recorded: the row for a fetch, nothing otherwise.
pub open spec fn seen_fits(step: StepView, r: Option<RowRef>) -> bool {
    match step {
        StepView::Fetch { table, .. } => r matches Some(row) && (table == Table::Resumes) == (row is Resume),
        _ => r is None,
    }
}

/// Every ownership and visibility check already passed holds of the resume it looked at.
pub open spec fn checks_hold(s: OpView) -> bool {
    forall|k: int|
        0 <= k < s.pos ==> match #[trigger] s.plan[k] {
            StepView::RequireOwner { resume_step } => s.seen[resume_step as int] matches Some(
                RowRef::Resume { created_by, .. },
            ) && owned_by(created_by, s.user),
            StepView::RequireVisible { resume_step, .. } => s.seen[resume_step as int] matches Some(
                RowRef::Resume { created_by, is_public },
            ) && visible_to(created_by, is_public, s.user),
            _ => true,
        }
}

/// Consistency of an operation's state.
pub open spec fn state_ok(s: OpView) -> bool {
    &&& plan_ok(s.plan, s.finish)
    &&& s.pos <= s.plan.len()
    &&& s.seen.len() == s.pos
    &&& forall|k: int| 0 <= k < s.pos ==> #[trigger] seen_fits(s.plan[k], s.seen[k])
    &&& checks_hold(s)
    &&& s.result is None ==> s.pos < s.plan.len() && is_db_step(s.plan[s.pos as int])
}

/// The state of an operation that has not run any step yet.
pub open spec fn start(user: Option<i32>, plan: Seq<StepView>, finish: Finish) -> OpView {
    OpView { user, plan, finish, pos: 0, seen: Seq::empty(), result: None }
}

/// Steps that change the database.
pub open spec fn is_write(s: StepView) -> bool {
    s is Insert || s is Update || s is Delete
}

/// Every write of the plan comes after an ownership check.
pub open spec fn guards_writes(plan: Seq<StepView>) -> bool {
    forall|w: int| 0 <= w < plan.len() && is_write(#[trigger] plan[w]) ==> exists|k: int|
        0 <= k < w && #[trigger] plan[k] is RequireOwner
}

/// Every load of the plan comes after a visibility check.
pub open spec fn guards_loads(plan: Seq<StepView>) -> bool {
    forall|w: int| 0 <= w < plan.len() && #[trigger] plan[w] is Load ==> exists|k: int|
        0 <= k < w && #[trigger] plan[k] is RequireVisible
}

/// The fetched row is a resume owned by the user.
pub open spec fn resume_owned_by(r: Option<RowRef>, user: Option<i32>) -> bool {
    match r {
        Some(RowRef::Resume { created_by, .. }) => owned_by(created_by, user),
        _ => false,
    }
}

/// The fetched row is a resume visible to the user.
pub open spec fn resume_visible_to(r: Option<RowRef>, user: Option<i32>) -> bool {
    match r {
        Some(RowRef::Resume { created_by, is_public }) => visible_to(created_by, is_public, user),
        _ => false,
    }
}

/// A write is only ever requested on behalf of the signed-in owner of a
/// resume that the operation fetched: no one else can change a resume.
pub proof fn lemma_writes_only_for_owner(s: OpView)
    requires
        state_ok(s),
        guards_writes(s.plan),
        s.result is None,
        is_write(s.plan[s.pos as int]),
    ensures
        s.user is Some,
        exists|k: int| 0 <= k < s.pos && #[trigger] resume_owned_by(s.seen[k], s.user),
{
    let w = s.pos as int;
    let k = choose|k: int| 0 <= k < w && #[trigger] s.plan[k] is RequireOwner;
    assert(checks_hold(s));
    let t = s.plan[k];
    assert(step_ok(s.plan, k));
    match t {
        StepView::RequireOwner { resume_step } => {
            assert(resume_owned_by(s.seen[resume_step as int], s.user));
        },
        _ => {},
    }
}

/// Rows are only ever loaded after a resume that the operation fetched was
/// found visible to the caller: public, or owned by the signed-in user.
pub proof fn lemma_loads_only_when_visible(s: OpView)
    requires
        state_ok(s),
        guards_loads(s.plan),
        s.result is None,
        s.plan[s.pos as int] is Load,
    ensures
        exists|k: int| 0 <= k < s.pos && #[trigger] resume_visible_to(s.seen[k], s.user),
{
    let w = s.pos as int;
    let k = choose|k: int| 0 <= k < w && #[trigger] s.plan[k] is RequireVisible;
    assert(checks_hold(s));
    assert(step_ok(s.plan, k));
    match s.plan[k] {
        StepView::RequireVisible { resume_step, .. } => {
            assert(resume_visible_to(s.seen[resume_step as int], s.user));
        },
        _ => {},
    }
}

/// An ownership check on a resume that belongs to someone else (or to no
/// one, or with no user signed in) ends the operation with `Forbidden`.
pub proof fn lemma_foreign_resume_is_forbidden(s: OpView, resume_step: usize, created_by: Option<i32>, is_public: bool)
    requires
        s.result is None,
        s.pos < s.plan.len(),
        s.plan[s.pos as int] == (StepView::RequireOwner { resume_step }),
        s.seen[resume_step as int] == Some(RowRef::Resume { created_by, is_public }),
        !owned_by(created_by, s.user),
    ensures
        settle(s).result == Some(Err::<Outcome, AppErr>(AppErr::Forbidden)),
{
}

/// Consistency of the part of a state that the steps taken so far determine.
pub open spec fn prefix_ok(s: OpView) -> bool {
    &&& plan_ok(s.plan, s.finish)
    &&& s.pos <= s.plan.len()
    &&& s.seen.len() == s.pos
    &&& forall|k: int| 0 <= k < s.pos ==> #[trigger] seen_fits(s.plan[k], s.seen[k])
    &&& checks_hold(s)
}

/// The ownership or visibility check of a step holds of the rows seen.
pub open spec fn check_passes(step: StepView, seen: Seq<Option<RowRef>>, user: Option<i32>) -> bool {
    match step {
        StepView::RequireOwner { resume_step } => seen[resume_step as int] matches Some(
            RowRef::Resume { created_by, .. },
        ) && owned_by(created_by, user),
        StepView::RequireVisible { resume_step, .. } => seen[resume_step as int] matches Some(
            RowRef::Resume { created_by, is_public },
        ) && visible_to(created_by, is_public, user),
        _ => true,
    }
}

proof fn lemma_pass_check(s: OpView)
    requires
        prefix_ok(s),
        s.pos < s.plan.len(),
        !is_db_step(s.plan[s.pos as int]),
        check_passes(s.plan[s.pos as int], s.seen, s.user),
    ensures
        prefix_ok(passed(s, None)),
{
    let t = passed(s, None);
    assert forall|k: int| 0 <= k < t.pos implies #[trigger] seen_fits(t.plan[k], t.seen[k]) by {
        if k < s.pos {
            assert(seen_fits(s.plan[k], s.seen[k]));
        }
    }
    assert forall|k: int| 0 <= k < t.pos implies match #[trigger] t.plan[k] {
        StepView::RequireOwner { resume_step } => t.seen[resume_step as int] matches Some(
            RowRef::Resume { created_by, .. },
        ) && owned_by(created_by, t.user),
        StepView::RequireVisible { resume_step, .. } => t.seen[resume_step as int] matches Some(
            RowRef::Resume { created_by, is_public },
        ) && visible_to(created_by, is_public, t.user),
        _ => true,
    } by {
        assert(step_ok(s.plan, k));
        if k < s.pos {
            assert(checks_hold(s));
        }
    }
}

proof fn lemma_pass_db_step(s: OpView, found: Option<RowRef>)
    requires
        prefix_ok(s),
        s.pos < s.plan.len(),
        is_db_step(s.plan[s.pos as int]),
        seen_fits(s.plan[s.pos as int], found),
    ensures
        prefix_ok(passed(s, found)),
{
    let t = passed(s, found);
    assert forall|k: int| 0 <= k < t.pos implies #[trigger] seen_fits(t.plan[k], t.seen[k]) by {
        if k < s.pos {
            assert(seen_fits(s.plan[k], s.seen[k]));
        }
    }
    assert forall|k: int| 0 <= k < t.pos implies match #[trigger] t.plan[k] {
        StepView::RequireOwner { resume_step } => t.seen[resume_step as int] matches Some(
            RowRef::Resume { created_by, .. },
        ) && owned_by(created_by, t.user),
        StepView::RequireVisible { resume_step, .. } => t.seen[resume_step as int] matches Some(
            RowRef::Resume { created_by, is_public },
        ) && visible_to(created_by, is_public, t.user),
        _ => true,
    } by {
        if k < s.pos {
            assert(step_ok(s.plan, k));
        }
    }
}

// ---------------------------------------------------------------------------
// Running an operation
// ---------------------------------------------------------------------------

fn failure_to_error(rule: &OnFailure, e: DbError) -> (r: ApplicationError)
    requires
        rule@ is Abort ==> e@ is NotFound,
    ensures
        r@ == failure_error(rule@, e@),
{
    match rule {
        OnFailure::Generic => app_err_from_diesel_err(e),
        OnFailure::Internal => {
            let text = db_error_display(&e);
            database_error(text.as_str())
        },
        OnFailure::Missing(m) => match e {
            DbError::NotFound => ApplicationError::NotFound(m.clone()),
            _ => {
                let text = db_error_display(&e);
                database_error(text.as_str())
            },
        },
        OnFailure::MissingElseGeneric(m) => match e {
            DbError::NotFound => ApplicationError::NotFound(m.clone()),
            _ => app_err_from_diesel_err(e),
        },
        OnFailure::Abort(m) => ApplicationError::NotFound(m.clone()),
    }
}

impl Operation {
    /// Consistency of the operation's state.
    pub open spec fn wf(&self) -> bool {
        state_ok(self@)
    }

    proof fn lemma_view_plan(&self, i: int)
        requires
            0 <= i < self.steps@.len(),
        ensures
            self@.plan[i] == self.steps@[i]@,
            self@.plan.len() == self.steps@.len(),
    {
    }

    /// Starts an operation with the given plan, whose first step queries the database.
    pub(crate) fn new(user: Option<i32>, steps: Vec<Step>, finish: Finish) -> (op: Operation)
        requires
            plan_ok(steps@.map_values(|s: Step| s@), finish),
            steps@.len() > 0,
            is_db_step(steps@[0]@),
        ensures
            op.wf(),
            op@ == start(user, steps@.map_values(|s: Step| s@), finish),
    {
        let op = Operation { user, steps, finish, pos: 0, seen: Vec::new(), result: None };
        assert(op@.seen =~= Seq::<Option<RowRef>>::empty());
        assert(op@ == start(user, op@.plan, finish));
        op
    }

    /// Whether `reply` is an answer the current step can take: a found row of
    /// the kind its table holds, the outcome its kind of query gives, or a
    /// failure (only a missing row for a step whose service does not handle
    /// other failures).
    pub fn accepts(&self, reply: &Reply) -> (r: bool)
        requires
            self.wf(),
            self@.result is None,
        ensures
            r == reply_fits(self@, reply@),
    {
        proof {
            self.lemma_view_plan(self.pos as int);
        }
        let (abort, fits) = match &self.steps[self.pos] {
            Step::Fetch { table, on_failure, .. } => (
                matches!(on_failure, OnFailure::Abort(_)),
                match reply {
                    Reply::Found(RowRef::Resume { .. }) => *table == Table::Resumes,
                    Reply::Found(RowRef::Child { .. }) => *table != Table::Resumes,
                    _ => false,
                },
            ),
            Step::Insert { on_failure, .. } => (matches!(on_failure, OnFailure::Abort(_)), matches!(reply, Reply::Written)),
            Step::Update { on_failure, .. } => (matches!(on_failure, OnFailure::Abort(_)), matches!(reply, Reply::Written)),
            Step::Delete { on_failure, .. } => (matches!(on_failure, OnFailure::Abort(_)), matches!(reply, Reply::Deleted(_))),
            Step::Load { on_failure, .. } => (matches!(on_failure, OnFailure::Abort(_)), matches!(reply, Reply::Loaded)),
            _ => return false,
        };
        match reply {
            Reply::Failed(e) => !abort || matches!(e, DbError::NotFound),
            _ => fits,
        }
    }

    /// Hands the database's answer to the current request to the operation,
    /// which then runs the checks that follow it.
    pub fn advance(&mut self, reply: Reply)
        requires
            old(self).wf(),
            old(self)@.result is None,
            reply_fits(old(self)@, reply@),
        ensures
            final(self).wf(),
            final(self)@ == after_reply(old(self)@, reply@),
    {
        proof {
            self.lemma_view_plan(self.pos as int);
        }
        let ghost s0 = self@;
        match &self.steps[self.pos] {
            Step::Fetch { .. } => match reply {
                Reply::Found(r) => {
                    proof { lemma_pass_db_step(s0, Some(r)); }
                    self.pass(Some(r));
                    self.settle_checks();
                },
                Reply::Failed(e) => {
                    let err = self.failure_of(e);
                    self.fail(err);
                },
                _ => {},
            },
            Step::Insert { .. } | Step::Update { .. } | Step::Load { .. } => match reply {
                Reply::Written | Reply::Loaded => {
                    proof { lemma_pass_db_step(s0, None); }
                    self.pass(None);
                    self.settle_checks();
                },
                Reply::Failed(e) => {
                    let err = self.failure_of(e);
                    self.fail(err);
                },
                _ => {},
            },
            Step::Delete { nothing_deleted, .. } => match reply {
                Reply::Deleted(n) => {
                    if n == 0 {
                        let err = ApplicationError::NotFound(nothing_deleted.clone());
                        self.fail(err);
                    } else {
                        proof { lemma_pass_db_step(s0, None); }
                        self.pass(None);
                        self.settle_checks();
                    }
                },
                Reply::Failed(e) => {
                    let err = self.failure_of(e);
                    self.fail(err);
                },
                _ => {},
            },
            _ => {},
        }
    }

    /// The error the current step answers a failed query with.
    fn failure_of(&self, e: DbError) -> (r: ApplicationError)
        requires
            self.wf(),
            self@.result is None,
            reply_fits(self@, ReplyView::Failed(e@)),
        ensures
            r@ == match self@.plan[self@.pos as int] {
                StepView::Fetch { on_failure, .. } => failure_error(on_failure, e@),
                StepView::Insert { on_failure, .. } => failure_error(on_failure, e@),
                StepView::Update { on_failure, .. } => failure_error(on_failure, e@),
                StepView::Delete { on_failure, .. } => failure_error(on_failure, e@),
                StepView::Load { on_failure, .. } => failure_error(on_failure, e@),
                _ => AppErr::Forbidden,
            },
    {
        proof {
            self.lemma_view_plan(self.pos as int);
        }
        match &self.steps[self.pos] {
            Step::Fetch { on_failure, .. } => failure_to_error(on_failure, e),
            Step::Insert { on_failure, .. } => failure_to_error(on_failure, e),
            Step::Update { on_failure, .. } => failure_to_error(on_failure, e),
            Step::Delete { on_failure, .. } => failure_to_error(on_failure, e),
            Step::Load { on_failure, .. } => failure_to_error(on_failure, e),
            _ => ApplicationError::Forbidden,
        }
    }

    /// The result of a finished operation.
    pub fn into_result(self) -> (r: Result<Outcome, ApplicationError>)
        requires
            self@.result is Some,
        ensures
            self@.result == Some(match r {
                Ok(o) => Ok::<Outcome, AppErr>(o),
                Err(e) => Err(e@),
            }),
    {
        match self.result {
            Some(r) => r,
            None => Ok(Outcome::Nothing),
        }
    }

    /// Whether the operation has finished.
    pub fn is_finished(&self) -> (r: bool)
        ensures
            r == (self@.result is Some),
    {
        self.result.is_some()
    }

    fn resolve_id(&self, src: IdSource) -> (r: i32)
        requires
            self.wf(),
            source_ok(self@.plan, src, self@.pos as int),
        ensures
            r == resolve(src, self@.seen),
    {
        match src {
            IdSource::Given(i) => i,
            IdSource::ParentOf(k) => {
                proof {
                    assert(seen_fits(self@.plan[k as int], self@.seen[k as int]));
                }
                match self.seen[k] {
                    Some(RowRef::Child { parent }) => parent,
                    _ => 0,
                }
            },
        }
    }

    /// The query the operation waits on; `None` once it has finished.
    pub fn next_request(&self) -> (r: Option<DbRequest>)
        requires
            self.wf(),
        ensures
            r == request_of(self@),
    {
        if self.result.is_some() || self.pos >= self.steps.len() {
            return None;
        }
        proof {
            self.lemma_view_plan(self.pos as int);
            assert(step_ok(self@.plan, self@.pos as int));
        }
        match &self.steps[self.pos] {
            Step::Fetch { table, id, in_resume, .. } => Some(
                DbRequest::Fetch { table: *table, id: self.resolve_id(*id), in_resume: *in_resume },
            ),
            Step::Insert { table, .. } => Some(DbRequest::Insert { table: *table }),
            Step::Update { table, id, .. } => Some(
                DbRequest::Update { table: *table, id: self.resolve_id(*id) },
            ),
            Step::Delete { table, id, .. } => Some(
                DbRequest::Delete { table: *table, id: self.resolve_id(*id) },
            ),
            Step::Load { table, parent, .. } => Some(
                DbRequest::Load { table: *table, parent_id: self.resolve_id(*parent) },
            ),
            _ => None,
        }
    }

    fn pass(&mut self, found: Option<RowRef>)
        requires
            old(self).pos < old(self).steps.len(),
        ensures
            final(self)@ == passed(old(self)@, found),
            final(self).steps@ == old(self).steps@,
    {
        self.seen.push(found);
        self.pos = self.pos + 1;
    }

    fn fail(&mut self, e: ApplicationError)
        ensures
            final(self)@ == failed(old(self)@, e@),
            final(self).steps@ == old(self).steps@,
    {
        self.result = Some(Err(e));
    }

    fn outcome(&self) -> (r: Outcome)
        requires
            plan_ok(self@.plan, self@.finish),
            self@.pos == self@.plan.len(),
            self@.seen.len() == self@.pos,
            forall|k: int| 0 <= k < self@.pos ==> #[trigger] seen_fits(self@.plan[k], self@.seen[k]),
        ensures
            r == outcome_of(self@.finish, self@.seen),
    {
        match self.finish {
            Finish::Nothing => Outcome::Nothing,
            Finish::ParentOf(k) => Outcome::ResumeId(self.resolve_parent(k)),
            Finish::Row => Outcome::Row,
            Finish::RowAndParentOf(k) => Outcome::RowAndResumeId(self.resolve_parent(k)),
            Finish::Rows => Outcome::Rows,
        }
    }

    fn resolve_parent(&self, k: usize) -> (r: i32)
        requires
            k < self@.seen.len(),
        ensures
            r == parent_id(self@.seen[k as int]),
    {
        match self.seen[k] {
            Some(RowRef::Child { parent }) => parent,
            _ => 0,
        }
    }

    /// Runs the checks up to the next step that needs the database.
    fn settle_checks(&mut self)
        requires
            prefix_ok(old(self)@),
            old(self)@.result is None,
        ensures
            final(self)@ == settle(old(self)@),
            final(self).wf(),
    {
        let ghost target = settle(self@);
        let mut stop = false;
        while !stop && self.result.is_none() && self.pos < self.steps.len()
            invariant
                stop ==> self@.result is None && self@.pos < self@.plan.len() && is_db_step(self@.plan[self@.pos as int]),
                settle(self@) == target,
                plan_ok(self@.plan, self@.finish),
                self@.pos <= self@.plan.len(),
                self@.seen.len() == self@.pos,
                forall|k: int| 0 <= k < self@.pos ==> #[trigger] seen_fits(self@.plan[k], self@.seen[k]),
                checks_hold(self@),
            decreases self@.plan.len() - self@.pos, if self@.result is Some || stop { 0int } else { 1int },
        {
            proof {
                self.lemma_view_plan(self.pos as int);
                assert(step_ok(self@.plan, self@.pos as int));
            }
            let ghost before = self@;
            match &self.steps[self.pos] {
                Step::RequireOwner { resume_step } => {
                    let k = *resume_step;
                    proof {
                        assert(seen_fits(self@.plan[k as int], self@.seen[k as int]));
                    }
                    let ok = match self.seen[k] {
                        Some(RowRef::Resume { created_by, .. }) => match (created_by, self.user) {
                            (Some(owner), Some(u)) => owner == u,
                            _ => false,
                        },
                        _ => false,
                    };
                    if ok {
                        self.pass(None);
                        proof {
                            lemma_pass_check(before);
                        }
                    } else {
                        self.fail(ApplicationError::Forbidden);
                    }
                },
                Step::RequireVisible { resume_step, on_hidden } => {
                    let k = *resume_step;
                    proof {
                        assert(seen_fits(self@.plan[k as int], self@.seen[k as int]));
                    }
                    let ok = match self.seen[k] {
                        Some(RowRef::Resume { created_by, is_public }) => is_public || match (created_by, self.user) {
                            (Some(owner), Some(u)) => owner == u,
                            _ => false,
                        },
                        _ => false,
                    };
                    if ok {
                        self.pass(None);
                        proof {
                            lemma_pass_check(before);
                        }
                    } else {
                        let e = failure_to_error(on_hidden, DbError::NotFound);
                        self.fail(e);
                    }
                },
                _ => {
                    stop = true;
                },
            }
        }
        if self.result.is_none() && self.pos >= self.steps.len() {
            let o = self.outcome();
            self.result = Some(Ok(o));
        }
    }
}

/// The answer of a listing: on success the rows its load returned, in
/// display order (a stable sort by display position, then id); on failure
/// the operation's error.
pub fn finish_list<T: DisplayOrdered>(result: Result<Outcome, ApplicationError>, loaded: Vec<T>) -> (r: Result<Vec<T>, ApplicationError>)
    ensures
        match result {
            Ok(_) => r matches Ok(v) && v@.len() == loaded@.len() && stable_sorted(loaded@, v@),
            Err(e) => r matches Err(f) && f@ == e@,
        },
{
    match result {
        Ok(_) => Ok(sort_for_display(loaded)),
        Err(e) => Err(e),
    }
}

} // verus!
