//! Builders for the request URLs of the remote API.
//!
//! Every collection an expander fetches, and every per-record endpoint,
//! is a fixed suffix appended to a base; each builder's contract states
//! the produced text exactly.

use vstd::prelude::*;

use crate::text::{dec_digits, trim_trailing_slashes, u64_to_dec, without_trailing_slashes};

verus! {

/// The authenticated user's own record.
pub fn user_self_url(canvas_url: &str) -> (r: String)
    ensures
        r@ == canvas_url@ + "/api/v1/users/self"@,
{
    let mut s = canvas_url.to_owned();
    s.append("/api/v1/users/self");
    s
}

/// The user's favorite courses.
pub fn favorite_courses_url(canvas_url: &str) -> (r: String)
    ensures
        r@ == canvas_url@ + "/api/v1/users/self/favorites/courses"@,
{
    let mut s = canvas_url.to_owned();
    s.append("/api/v1/users/self/favorites/courses");
    s
}

/// The root folder listing of one course's file tree.
pub fn course_folders_url(canvas_url: &str, course_id: u32) -> (r: String)
    ensures
        r@ == canvas_url@ + "/api/v1/courses/"@ + dec_digits(course_id as int)
            + "/folders/by_path/"@,
{
    let mut s = canvas_url.to_owned();
    s.append("/api/v1/courses/");
    s.append(u64_to_dec(course_id as u64).as_str());
    s.append("/folders/by_path/");
    s
}

/// The API base of one course, with a trailing separator for suffixing.
pub fn course_api_url(canvas_url: &str, course_id: u32) -> (r: String)
    ensures
        r@ == canvas_url@ + "/api/v1/courses/"@ + dec_digits(course_id as int) + "/"@,
{
    let mut s = canvas_url.to_owned();
    s.append("/api/v1/courses/");
    s.append(u64_to_dec(course_id as u64).as_str());
    s.append("/");
    s
}

/// One file record by its id.
pub fn file_api_url(canvas_url: &str, file_id: u32) -> (r: String)
    ensures
        r@ == without_trailing_slashes(canvas_url@) + "/api/v1/files/"@ + dec_digits(
            file_id as int,
        ),
{
    let mut s = trim_trailing_slashes(canvas_url);
    s.append("/api/v1/files/");
    s.append(u64_to_dec(file_id as u64).as_str());
    s
}

/// The assignment listing of a course, with the submission fields the
/// mirror keeps.
pub fn assignments_url(course_url: &str) -> (r: String)
    ensures
        r@ == course_url@
            + "assignments?include[]=submission&include[]=assignment_visibility&include[]=all_dates&include[]=overrides&include[]=observed_users&include[]=can_edit&include[]=score_statistics"@,
{
    let mut s = course_url.to_owned();
    s.append(
        "assignments?include[]=submission&include[]=assignment_visibility&include[]=all_dates&include[]=overrides&include[]=observed_users&include[]=can_edit&include[]=score_statistics",
    );
    s
}

/// The user's submission for one assignment.
pub fn submissions_url(course_url: &str, assignment_id: u32, user_id: u32) -> (r: String)
    ensures
        r@ == course_url@ + "assignments/"@ + dec_digits(assignment_id as int) + "/submissions/"@
            + dec_digits(user_id as int),
{
    let mut s = course_url.to_owned();
    s.append("assignments/");
    s.append(u64_to_dec(assignment_id as u64).as_str());
    s.append("/submissions/");
    s.append(u64_to_dec(user_id as u64).as_str());
    s
}

/// The discussion (or announcement) listing of a course.
pub fn discussions_url(course_url: &str, announcements: bool) -> (r: String)
    ensures
        announcements ==> r@ == course_url@ + "discussion_topics?only_announcements=true"@,
        !announcements ==> r@ == course_url@ + "discussion_topics"@,
{
    let mut s = course_url.to_owned();
    if announcements {
        s.append("discussion_topics?only_announcements=true");
    } else {
        s.append("discussion_topics");
    }
    s
}

/// The full view of one discussion.
pub fn discussion_view_url(course_url: &str, discussion_id: u32) -> (r: String)
    ensures
        r@ == course_url@ + "discussion_topics/"@ + dec_digits(discussion_id as int) + "/view"@,
{
    let mut s = course_url.to_owned();
    s.append("discussion_topics/");
    s.append(u64_to_dec(discussion_id as u64).as_str());
    s.append("/view");
    s
}

/// The page listing of a course.
pub fn pages_index_url(course_url: &str) -> (r: String)
    ensures
        r@ == course_url@ + "pages"@,
{
    let mut s = course_url.to_owned();
    s.append("pages");
    s
}

/// One page of a course by its page slug.
pub fn page_url(course_url: &str, slug: &str) -> (r: String)
    ensures
        r@ == course_url@ + "pages/"@ + slug@,
{
    let mut s = course_url.to_owned();
    s.append("pages/");
    s.append(slug);
    s
}

/// The module listing of a course.
pub fn modules_index_url(course_url: &str) -> (r: String)
    ensures
        r@ == course_url@ + "modules"@,
{
    let mut s = course_url.to_owned();
    s.append("modules");
    s
}

/// The user listing of a course, with the fields the mirror keeps.
pub fn users_url(course_url: &str) -> (r: String)
    ensures
        r@ == course_url@
            + "users?include_inactive=true&include[]=avatar_url&include[]=enrollments&include[]=email&include[]=observed_users&include[]=can_be_removed&include[]=custom_links"@,
{
    let mut s = course_url.to_owned();
    s.append(
        "users?include_inactive=true&include[]=avatar_url&include[]=enrollments&include[]=email&include[]=observed_users&include[]=can_be_removed&include[]=custom_links",
    );
    s
}

/// One course record with its syllabus body included.
pub fn syllabus_url(canvas_url: &str, course_id: u32) -> (r: String)
    ensures
        r@ == without_trailing_slashes(canvas_url@) + "/api/v1/courses/"@ + dec_digits(
            course_id as int,
        ) + "?include[]=syllabus_body"@,
{
    let mut s = trim_trailing_slashes(canvas_url);
    s.append("/api/v1/courses/");
    s.append(u64_to_dec(course_id as u64).as_str());
    s.append("?include[]=syllabus_body");
    s
}

} // verus!
