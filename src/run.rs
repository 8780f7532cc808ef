use vstd::prelude::*;
use crate::downloads::{plan_downloads, planned_downloads, download_view, Download};
use crate::encode::{encode_messages, encoded_page, EncodeError};
use crate::model::{Message, User};
use crate::paging::{initial_cursor, next_cursor, PageAction, PageCursor, PageRequest};
use crate::paths::{messages_path, messages_path_of, user_directory, user_directory_of};

verus! {

/// Relies on time::now and Tm::rfc3339: the local time at the call, written
/// in RFC 3339 form, which always holds at least the date's separators and a
/// zone.
#[verifier::external_body]
fn now_rfc3339() -> (r: String)
    ensures
        r@.len() > 0,
{
    format!("{}", time::now().rfc3339())
}

/// The settings of one export run, fixed for all its users.
pub struct ExportRun {
    /// The directory under which each user's export gets a directory.
    pub output_root: String,
    /// How many messages each page request asks for.
    pub page_size: u64,
    /// The moment the run began, sent with every page request.
    pub reference_date: String,
}

/// The export target of one user: the user's directory, the log file in it,
/// and the cursor over the user's history.
pub struct UserExport {
    pub directory: String,
    pub log_path: String,
    pub cursor: PageCursor,
}

/// What to do with one page that came back: the action, the text to append
/// to the log (or why the page could not be encoded), and the attachments to
/// fetch. A stopping empty page asks for neither.
pub struct PageWork {
    pub action: PageAction,
    pub log_text: Result<String, EncodeError>,
    pub downloads: Vec<Download>,
}

impl ExportRun {
    /// A run whose page requests carry `reference_date`.
    pub fn with_reference_date(output_root: String, page_size: u64, reference_date: String) -> (r:
        ExportRun)
        ensures
            r.output_root@ == output_root@,
            r.page_size == page_size,
            r.reference_date@ == reference_date@,
    {
        ExportRun { output_root, page_size, reference_date }
    }

    /// A run that begins now: the current time is read once, here, and every
    /// page request of the run carries it.
    pub fn begin(output_root: String, page_size: u64) -> (r: ExportRun)
        ensures
            r.output_root@ == output_root@,
            r.page_size == page_size,
            r.reference_date@.len() > 0,
    {
        let date = now_rfc3339();
        ExportRun::with_reference_date(output_root, page_size, date)
    }

    /// The export target of `user`: `{root}/{name}`, its log
    /// `{root}/{name}/messages.csv`, and a cursor at the start of the history.
    pub fn for_user(&self, user: &User) -> (r: UserExport)
        ensures
            r.directory@ == user_directory_of(self.output_root@, user.name@),
            r.log_path@ == messages_path_of(r.directory@),
            r.cursor@ == initial_cursor(self.page_size as nat),
    {
        let directory = user_directory(&self.output_root, &user.name);
        let log_path = messages_path(&directory);
        UserExport { directory, log_path, cursor: PageCursor::new(self.page_size) }
    }

    /// The request for the page at `cursor`, dated with the run's start.
    pub fn request(&self, cursor: &PageCursor) -> (r: PageRequest)
        ensures
            r.start_index as nat == cursor@.start_index,
            r.max_results as nat == cursor@.page_size,
            !r.reversed,
            r.date@ == self.reference_date@,
    {
        cursor.request(&self.reference_date)
    }
}

impl UserExport {
    /// Takes in the page that answered the request at the cursor: moves the
    /// cursor on and says what to write and fetch. A page that is not empty is
    /// encoded and its attachments planned, each independently of the other;
    /// an empty one gives nothing to write or fetch.
    pub fn take_page(&mut self, page: &Vec<Message>) -> (w: PageWork)
        requires
            !old(self).cursor@.finished,
            old(self).cursor@.start_index + old(self).cursor@.page_size <= u64::MAX,
        ensures
            (final(self).cursor@, w.action) == next_cursor(old(self).cursor@, page@.len() as nat),
            final(self).directory == old(self).directory,
            final(self).log_path == old(self).log_path,
            w.action == PageAction::Stop ==> (w.log_text matches Ok(t) && t@.len() == 0),
            w.log_text matches Ok(t) && t@ == encoded_page(page@),
            w.downloads@.map_values(|d: Download| download_view(d)) == planned_downloads(
                page@,
                old(self).directory@,
            ),
            w.action == PageAction::Stop ==> w.downloads@.len() == 0,
    {
        let action = self.cursor.on_page(page.len());
        let log_text = encode_messages(page);
        let downloads = plan_downloads(page, &self.directory);
        if page.len() == 0 {
            assert(downloads@.map_values(|d: Download| download_view(d)).len() == 0);
        }
        PageWork { action, log_text, downloads }
    }
}

} // verus!
