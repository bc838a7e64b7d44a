//! Data model for the remote course-mirroring API: resources discovered
//! during the crawl and the records the sync engine consumes.
//!
//! Remote timestamps are carried as their original ISO-8601 text; local
//! paths are carried as plain strings, resolved by the selection step.

use vstd::prelude::*;

verus! {

/// Connection settings loaded at start-up.
#[derive(Clone, Debug, PartialEq)]
pub struct Credentials {
    pub canvas_url: String,
    pub canvas_token: String,
}

/// One course the authenticated user is enrolled in.
#[derive(Clone, Debug, PartialEq)]
pub struct Course {
    pub id: u32,
    pub name: String,
    pub course_code: String,
    pub enrollment_term_id: u32,
}

/// The authenticated user.
#[derive(Clone, Debug, PartialEq)]
pub struct User {
    pub id: u32,
    pub name: String,
}

/// One remote folder in a course's file tree.
#[derive(Clone, Debug, PartialEq)]
pub struct Folder {
    pub id: u32,
    pub name: String,
    pub folders_url: String,
    pub files_url: String,
    pub for_submissions: bool,
    pub can_upload: bool,
    pub parent_folder_id: Option<u32>,
}

/// One wiki page, as listed by the page index.
#[derive(Clone, Debug, PartialEq)]
pub struct Page {
    pub page_id: u32,
    pub url: String,
    pub title: String,
    pub updated_at: String,
    pub locked_for_user: bool,
}

/// One wiki page together with its rendered body.
#[derive(Clone, Debug, PartialEq)]
pub struct PageBody {
    pub page_id: u32,
    pub url: String,
    pub title: String,
    pub body: String,
    pub updated_at: String,
    pub locked_for_user: bool,
}

/// One assignment of a course.
#[derive(Clone, Debug, PartialEq)]
pub struct Assignment {
    pub id: u32,
    pub name: String,
    pub description: String,
    pub created_at: Option<String>,
    pub due_at: Option<String>,
    pub submission_types: Option<Vec<String>>,
}

/// The user's submission for one assignment.
#[derive(Clone, Debug, PartialEq)]
pub struct Submission {
    pub id: Option<u32>,
    pub body: Option<String>,
    pub attachments: Vec<File>,
}

/// One discussion topic or announcement.
#[derive(Clone, Debug, PartialEq)]
pub struct Discussion {
    pub id: u32,
    pub title: String,
    pub message: String,
    pub posted_at: Option<String>,
    pub author: Option<DiscussionAuthor>,
    pub attachments: Vec<File>,
}

/// The author record attached to a discussion.
#[derive(Clone, Debug, PartialEq)]
pub struct DiscussionAuthor {
    pub id: Option<u32>,
    pub display_name: Option<String>,
    pub avatar_image_url: Option<String>,
}

/// The full view of a discussion: its comment tree.
#[derive(Clone, Debug, PartialEq)]
pub struct DiscussionView {
    pub unread_entries: Vec<u32>,
    pub view: Vec<Comments>,
}

/// One comment inside a discussion view.
#[derive(Clone, Debug, PartialEq)]
pub struct Comments {
    pub id: u32,
    pub user_id: Option<u32>,
    pub user_name: Option<String>,
    pub message: Option<String>,
    pub created_at: Option<String>,
    pub attachment: Option<File>,
    pub attachments: Option<Vec<File>>,
}

/// One downloadable remote file.
///
/// `filepath` is the resolved local destination; it is empty until the
/// selection step fills it, and never empty once the file is queued for
/// download.
#[derive(Clone, Debug, PartialEq)]
pub struct File {
    pub id: u32,
    pub folder_id: u32,
    pub display_name: String,
    pub size: u64,
    pub url: String,
    pub updated_at: String,
    pub locked_for_user: bool,
    pub filepath: String,
}

/// Mathematical image of a [`File`]: every text field as a character
/// sequence.
pub struct FileModel {
    pub id: u32,
    pub folder_id: u32,
    pub display_name: Seq<char>,
    pub size: u64,
    pub url: Seq<char>,
    pub updated_at: Seq<char>,
    pub locked_for_user: bool,
    pub filepath: Seq<char>,
}

impl View for File {
    type V = FileModel;

    open spec fn view(&self) -> FileModel {
        FileModel {
            id: self.id,
            folder_id: self.folder_id,
            display_name: self.display_name@,
            size: self.size,
            url: self.url@,
            updated_at: self.updated_at@,
            locked_for_user: self.locked_for_user,
            filepath: self.filepath@,
        }
    }
}

/// A session handle for an external video provider.
#[derive(Clone, Debug, PartialEq)]
pub struct Session {
    pub session_url: String,
    pub requires_terms_acceptance: bool,
}

/// A listing of one video folder: its recordings and subfolders.
#[derive(Clone, Debug, PartialEq)]
#[allow(non_snake_case)]
pub struct PanoptoSessionInfo {
    pub TotalNumber: u32,
    pub Results: Vec<PanoptoResult>,
    pub Subfolders: Vec<PanoptoSubfolder>,
}

/// One recording in a video folder listing.
#[derive(Clone, Debug, PartialEq)]
#[allow(non_snake_case)]
pub struct PanoptoResult {
    pub DeliveryID: String,
    pub FolderID: String,
    pub SessionID: String,
    pub SessionName: String,
    pub StartTime: String,
    pub IosVideoUrl: String,
}

/// One subfolder in a video folder listing.
#[derive(Clone, Debug, PartialEq)]
#[allow(non_snake_case)]
pub struct PanoptoSubfolder {
    pub ID: String,
    pub Name: String,
}

/// Delivery metadata for one recording.
#[derive(Clone, Debug, PartialEq)]
#[allow(non_snake_case)]
pub struct PanoptoDeliveryInfo {
    pub SessionId: String,
    pub ViewerFileId: String,
}

/// One module of a course.
#[derive(Clone, Debug, PartialEq)]
pub struct Module {
    pub id: u32,
    pub name: String,
    pub position: u32,
    pub unlock_at: Option<String>,
    pub require_sequential_progress: Option<bool>,
    pub publish_final_grade: Option<bool>,
    pub prerequisite_module_ids: Vec<u32>,
    pub state: Option<String>,
    pub completed_at: Option<String>,
    pub items_count: u32,
    pub items_url: String,
}

/// One item inside a module. `item_type` discriminates what the item
/// points at ("File", "Page", "Discussion", "Assignment", "SubHeader",
/// "ExternalUrl", ...).
#[derive(Clone, Debug, PartialEq)]
pub struct ModuleItem {
    pub id: u32,
    pub title: String,
    pub item_type: String,
    pub content_id: Option<u32>,
    pub html_url: Option<String>,
    pub url: Option<String>,
    pub page_url: Option<String>,
    pub external_url: Option<String>,
    pub position: u32,
    pub indent: u32,
}

/// A course record carrying the syllabus body.
#[derive(Clone, Debug, PartialEq)]
pub struct Syllabus {
    pub id: u32,
    pub name: String,
    pub course_code: String,
    pub syllabus_body: Option<String>,
}

} // verus!
