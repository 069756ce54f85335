use vstd::prelude::*;
use crate::error::{database_error, database_error_text, db_error_display, db_error_text, AppErr, ApplicationError, DbError};
use crate::models::{NewResume, NewResumeRequest, Resume};
use crate::operation::visible_to;
use crate::ordering::{sort_for_display, stable_sorted};

verus! {

broadcast use vstd::seq_lib::group_seq_properties;

/// Tests whether a resume row is visible to the caller.
pub open spec fn resume_visible(viewer: Option<i32>) -> spec_fn(Resume) -> bool {
    |r: Resume| visible_to(r.created_by, r.is_public, viewer)
}

/// Decides whether the caller may see a resume: it is public, or it
/// belongs to the signed-in caller.
pub fn is_visible_to(created_by: Option<i32>, is_public: bool, viewer: Option<i32>) -> (r: bool)
    ensures
        r == visible_to(created_by, is_public, viewer),
{
    is_public || match (created_by, viewer) {
        (Some(owner), Some(u)) => owner == u,
        _ => false,
    }
}

/// The resumes the caller may see among the loaded rows, ordered by id;
/// a failed load is an internal error.
pub fn list_resumes(user_id: Option<i32>, loaded: Result<Vec<Resume>, DbError>) -> (r: Result<Vec<Resume>, ApplicationError>)
    ensures
        match loaded {
            Ok(rows) => r matches Ok(listed) && listed@.len() == rows@.filter(resume_visible(user_id)).len()
                && stable_sorted(rows@.filter(resume_visible(user_id)), listed@),
            Err(e) => r matches Err(err) && err@ == AppErr::Internal(database_error_text(db_error_text(e@))),
        },
{
    match loaded {
        Err(e) => {
            let text = db_error_display(&e);
            Err(database_error(text.as_str()))
        },
        Ok(rows) => {
            let ghost orig = rows@;
            let n = rows.len();
            let mut rest = rows;
            let mut shown: Vec<Resume> = Vec::new();
            let mut i: usize = 0;
            assert(orig.subrange(0, 0).filter(resume_visible(user_id)) =~= Seq::<Resume>::empty());
            while rest.len() > 0
                invariant
                    rest@ == orig.subrange(i as int, orig.len() as int),
                    i <= orig.len(),
                    n == orig.len(),
                    shown@ == orig.subrange(0, i as int).filter(resume_visible(user_id)),
                decreases rest@.len(),
            {
                let x = rest.remove(0);
                proof {
                    assert(i < orig.len());
                    assert(x == orig[i as int]);
                    assert(resume_visible(user_id)(x) == visible_to(x.created_by, x.is_public, user_id));
                    assert(orig.subrange(0, i + 1) =~= orig.subrange(0, i as int).push(x));
                    orig.subrange(0, i as int).lemma_filter_push(x, resume_visible(user_id));
                }
                if is_visible_to(x.created_by, x.is_public, user_id) {
                    shown.push(x);
                }
                i = i + 1;
            }
            proof {
                assert(orig.subrange(0, i as int) =~= orig);
            }
            Ok(sort_for_display(shown))
        },
    }
}

/// The row that creating a resume for the signed-in user inserts: owned by
/// the user, private unless the request says otherwise.
pub fn create_resume(user_id: i32, request: NewResumeRequest) -> (row: NewResume)
    ensures
        row.name == request.name,
        row.profile_image_url == request.profile_image_url,
        row.location == request.location,
        row.email == request.email,
        row.github_url == request.github_url,
        row.mobile_number == request.mobile_number,
        row.created_by == Some(user_id),
        row.is_public == match request.is_public {
            Some(b) => b,
            None => false,
        },
{
    let is_public = match request.is_public {
        Some(b) => b,
        None => false,
    };
    NewResume {
        name: request.name,
        profile_image_url: request.profile_image_url,
        location: request.location,
        email: request.email,
        github_url: request.github_url,
        mobile_number: request.mobile_number,
        created_by: Some(user_id),
        is_public,
    }
}

/// The answer to inserting a new resume: the stored row, or a conflict when
/// the email is already taken.  The service does not handle other failures.
pub fn finish_create_resume(inserted: Result<Resume, DbError>) -> (r: Result<Resume, ApplicationError>)
    requires
        inserted matches Err(e) ==> e is UniqueViolation,
    ensures
        match inserted {
            Ok(row) => r == Ok::<Resume, ApplicationError>(row),
            Err(_) => r matches Err(err) && err@ == AppErr::Conflict("Resume with this email already exists"@),
        },
{
    match inserted {
        Ok(row) => Ok(row),
        Err(_) => Err(ApplicationError::Conflict(String::from_str("Resume with this email already exists"))),
    }
}

} // verus!
