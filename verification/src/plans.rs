//! Expander decisions.
//!
//! Each content expander fetches a collection, parses it, and then
//! decides, record by record, which directories to create, which files
//! to queue and which child tasks to schedule. The functions here are
//! those decisions, from parsed records to plans; the I/O shell carries
//! the plans out and feeds every recursion back through the scheduler.

use vstd::prelude::*;

use crate::canvas::{File, FileModel, Folder, ModuleItem, Page};
use crate::text::{dec_digits, joined, sanitize_name, sanitized_of, str_eq, u64_to_dec};

verus! {

/// The status payload that stands for a resource the account cannot
/// see: it is treated as "resource absent", not as an error.
pub fn status_is_benign(status: &str) -> (r: bool)
    ensures
        r == (status@ == "unauthorized"@),
{
    str_eq(status, "unauthorized")
}

/// What to do for one discovered folder.
pub struct FolderPlan {
    /// Local directory for the folder's content. A folder without a
    /// parent is the root of a course's tree, mirrored straight into
    /// the parent directory without an extra level.
    pub folder_path: String,
    /// Collection to expand for the folder's files, into `folder_path`.
    pub files_url: String,
    /// Collection to expand for the subfolders, into `folder_path`.
    pub folders_url: String,
}

/// Decide where a folder's content goes and which two child expansions
/// to schedule.
pub fn plan_folder(folder: &Folder, parent: &str) -> (r: FolderPlan)
    ensures
        folder.parent_folder_id is Some ==> r.folder_path@ == joined(
            parent@,
            sanitized_of(folder.name@),
        ),
        folder.parent_folder_id is None ==> r.folder_path@ == parent@,
        r.files_url@ == folder.files_url@,
        r.folders_url@ == folder.folders_url@,
{
    let folder_path = if folder.parent_folder_id.is_some() {
        let san = sanitize_name(folder.name.as_str());
        crate::text::join_path(parent, san.as_str())
    } else {
        parent.to_owned()
    };
    FolderPlan {
        folder_path,
        files_url: folder.files_url.clone(),
        folders_url: folder.folders_url.clone(),
    }
}

/// What to do for one module item, by its type tag.
pub enum ModuleItemPlan {
    /// A file item: fetch this file record, then queue it.
    FetchFile { file_url: String },
    /// A page item: save this page under its own directory.
    SavePage { page_url: String, item_path: String },
    /// An assignment reference: noted, handled by the assignment pass.
    NoteAssignment { content_id: u32 },
    /// A discussion reference: noted, handled by the discussion pass.
    NoteDiscussion { content_id: u32 },
    /// An external link: write a shortcut file pointing at it.
    WriteShortcut { shortcut_path: String, target: String },
    /// An organisational subheader: create its directory.
    MakeFolder { item_path: String },
    /// A known type whose record lacks the field it needs.
    Incomplete,
    /// A type the mirror does not handle.
    Unsupported,
}

/// Decide what one module item asks for. `canvas_url` is the API base
/// (trailing separators ignored), `path` the module's local directory.
pub fn plan_module_item(item: &ModuleItem, canvas_url: &str, path: &str) -> (r: ModuleItemPlan)
    ensures
        item.item_type@ == "File"@ ==> match item.content_id {
            Some(id) => r matches ModuleItemPlan::FetchFile { file_url } && file_url@
                == crate::text::without_trailing_slashes(canvas_url@) + "/api/v1/files/"@
                + dec_digits(id as int),
            None => r is Incomplete,
        },
        item.item_type@ == "Page"@ ==> match item.url {
            Some(u) => r matches ModuleItemPlan::SavePage { page_url, item_path } && page_url@
                == u@ && item_path@ == joined(path@, sanitized_of(item.title@)),
            None => r is Incomplete,
        },
        item.item_type@ == "Assignment"@ ==> match item.content_id {
            Some(id) => r matches ModuleItemPlan::NoteAssignment { content_id } && content_id
                == id,
            None => r is Incomplete,
        },
        item.item_type@ == "Discussion"@ ==> match item.content_id {
            Some(id) => r matches ModuleItemPlan::NoteDiscussion { content_id } && content_id
                == id,
            None => r is Incomplete,
        },
        item.item_type@ == "ExternalUrl"@ ==> match item.external_url {
            Some(t) => r matches ModuleItemPlan::WriteShortcut { shortcut_path, target }
                && shortcut_path@ == joined(path@, sanitized_of(item.title@) + ".url"@) && target@
                == t@,
            None => r is Incomplete,
        },
        item.item_type@ == "SubHeader"@ ==> (r matches ModuleItemPlan::MakeFolder { item_path }
            && item_path@ == joined(path@, sanitized_of(item.title@))),
        item.item_type@ != "File"@ && item.item_type@ != "Page"@ && item.item_type@
            != "Assignment"@ && item.item_type@ != "Discussion"@ && item.item_type@
            != "ExternalUrl"@ && item.item_type@ != "SubHeader"@ ==> r is Unsupported,
{
    proof {
        reveal_strlit("File");
        reveal_strlit("Page");
        reveal_strlit("Assignment");
        reveal_strlit("Discussion");
        reveal_strlit("ExternalUrl");
        reveal_strlit("SubHeader");
        // The six type tags differ pairwise in their first character.
        assert("File"@[0] == 'F' && "Page"@[0] == 'P' && "Assignment"@[0] == 'A');
        assert("Discussion"@[0] == 'D' && "ExternalUrl"@[0] == 'E' && "SubHeader"@[0] == 'S');
    }
    let t = item.item_type.as_str();
    if str_eq(t, "File") {
        match &item.content_id {
            Some(id) => ModuleItemPlan::FetchFile {
                file_url: crate::urls::file_api_url(canvas_url, *id),
            },
            None => ModuleItemPlan::Incomplete,
        }
    } else if str_eq(t, "Page") {
        match &item.url {
            Some(u) => {
                let san = sanitize_name(item.title.as_str());
                ModuleItemPlan::SavePage {
                    page_url: u.clone(),
                    item_path: crate::text::join_path(path, san.as_str()),
                }
            },
            None => ModuleItemPlan::Incomplete,
        }
    } else if str_eq(t, "Assignment") {
        match &item.content_id {
            Some(id) => ModuleItemPlan::NoteAssignment { content_id: *id },
            None => ModuleItemPlan::Incomplete,
        }
    } else if str_eq(t, "Discussion") {
        match &item.content_id {
            Some(id) => ModuleItemPlan::NoteDiscussion { content_id: *id },
            None => ModuleItemPlan::Incomplete,
        }
    } else if str_eq(t, "ExternalUrl") {
        match &item.external_url {
            Some(target) => {
                let mut name = sanitize_name(item.title.as_str());
                name.append(".url");
                ModuleItemPlan::WriteShortcut {
                    shortcut_path: crate::text::join_path(path, name.as_str()),
                    target: target.clone(),
                }
            },
            None => ModuleItemPlan::Incomplete,
        }
    } else if str_eq(t, "SubHeader") {
        let san = sanitize_name(item.title.as_str());
        ModuleItemPlan::MakeFolder { item_path: crate::text::join_path(path, san.as_str()) }
    } else {
        ModuleItemPlan::Unsupported
    }
}

/// The content of a shortcut file pointing at `target`.
pub fn shortcut_content(target: &str) -> (r: String)
    ensures
        r@ == "[InternetShortcut]\nURL="@ + target@ + "\n"@,
{
    let mut s = "[InternetShortcut]\nURL=".to_owned();
    s.append(target);
    s.append("\n");
    s
}

/// What to do for one listed page.
pub struct PagePlan {
    /// The page's own endpoint, to fetch its body from.
    pub page_url: String,
    /// Local directory for the page's files, named by its slug.
    pub page_path: String,
}

/// Decide one listed page's endpoint and directory.
pub fn plan_page(page: &Page, course_url: &str, pages_path: &str) -> (r: PagePlan)
    ensures
        r.page_url@ == course_url@ + "pages/"@ + page.url@,
        r.page_path@ == joined(pages_path@, page.url@),
{
    PagePlan {
        page_url: crate::urls::page_url(course_url, page.url.as_str()),
        page_path: crate::text::join_path(pages_path, page.url.as_str()),
    }
}

/// The rendered document for a fetched page body.
pub fn wrap_page_html(title: &str, body: &str) -> (r: String)
    ensures
        r@ == "<html><head><title>"@ + title@ + "</title></head><body>"@ + body@
            + "</body></html>"@,
{
    let mut s = "<html><head><title>".to_owned();
    s.append(title);
    s.append("</title></head><body>");
    s.append(body);
    s.append("</body></html>");
    s
}

/// The rendered document for a syllabus body.
pub fn wrap_syllabus_html(course_name: &str, body: &str) -> (r: String)
    ensures
        r@ == "<html><head><title>Syllabus - "@ + course_name@ + "</title></head><body>"@ + body@
            + "</body></html>"@,
{
    let mut s = "<html><head><title>Syllabus - ".to_owned();
    s.append(course_name);
    s.append("</title></head><body>");
    s.append(body);
    s.append("</body></html>");
    s
}

/// The local directory for one discussion: its id and sanitized title.
pub fn discussion_dir_name(discussion_id: u32, title: &str) -> (r: String)
    ensures
        r@ == dec_digits(discussion_id as int) + "_"@ + sanitized_of(title@),
{
    let mut s = u64_to_dec(discussion_id as u64);
    s.append("_");
    let san = sanitize_name(title);
    s.append(san.as_str());
    s
}

/// A discussion attachment renamed to carry its id, so that same-named
/// attachments of different comments cannot collide.
pub fn rename_attachment(f: &File) -> (r: File)
    ensures
        r@ == (FileModel {
            display_name: dec_digits(f.id as int) + "_"@ + f.display_name@,
            ..f@
        }),
{
    let mut name = u64_to_dec(f.id as u64);
    name.append("_");
    name.append(f.display_name.as_str());
    File {
        id: f.id,
        folder_id: f.folder_id,
        display_name: name,
        size: f.size,
        url: f.url.clone(),
        updated_at: f.updated_at.clone(),
        locked_for_user: f.locked_for_user,
        filepath: f.filepath.clone(),
    }
}

} // verus!
