//! The pages that the file server answers with.
//!
//! The server looks a path up and reads what it finds; what to answer for
//! each outcome is decided here.

use vstd::prelude::*;
use vstd::string::StringExecFns;

verus! {

/// The status of an answer that carries what was asked for.
pub const STATUS_OK: u16 = 200;

/// The status of an answer for a path that leads nowhere.
pub const STATUS_NOT_FOUND: u16 = 404;

/// The status of an answer for something that could not be read.
pub const STATUS_INTERNAL_SERVER_ERROR: u16 = 500;

/// An entry of a directory, as it is shown in a listing.
pub struct Entry {
    /// The path of the entry, quoted.
    pub path: String,
    /// The name of the entry, quoted.
    pub name: String,
}

/// What looking a path up has given.
pub enum Lookup {
    /// Nothing exists at the path.
    Missing,
    /// A directory, with its entries.
    Directory(Vec<Entry>),
    /// A file, with its content.
    File(String),
    /// Something is there and could not be read; the reason is given.
    Failed(String),
}

/// An answer: a status and the body that goes with it.
pub struct Page {
    pub status: u16,
    pub body: String,
}

/// The line of a listing for one entry.
pub open spec fn entry_line(path: Seq<char>, name: Seq<char>) -> Seq<char> {
    "<li><a href=\""@ + path + "\">"@ + name + "</li>"@
}

/// The lines of a listing for the first `n` entries, one after the other.
pub open spec fn entry_lines(entries: Seq<Entry>, n: int) -> Seq<char>
    decreases n,
{
    if n <= 0 {
        Seq::<char>::empty()
    } else {
        entry_lines(entries, n - 1) + entry_line(entries[n - 1].path@, entries[n - 1].name@)
    }
}

/// The page that lists the entries of a directory.
pub open spec fn listing(entries: Seq<Entry>) -> Seq<char> {
    "<html><body><ul>"@ + entry_lines(entries, entries.len() as int) + "</ul></body></html>"@
}

/// The status of the answer for a lookup.
pub open spec fn status_for(lookup: Lookup) -> u16 {
    match lookup {
        Lookup::Missing => STATUS_NOT_FOUND,
        Lookup::Directory(_) => STATUS_OK,
        Lookup::File(_) => STATUS_OK,
        Lookup::Failed(_) => STATUS_INTERNAL_SERVER_ERROR,
    }
}

/// The body of the answer for a lookup of the path shown as `shown`.
pub open spec fn body_for(shown: Seq<char>, lookup: Lookup) -> Seq<char> {
    match lookup {
        Lookup::Missing => "File "@ + shown + " not found"@,
        Lookup::Directory(entries) => listing(entries@),
        Lookup::File(content) => content@,
        Lookup::Failed(reason) => reason@,
    }
}

/// Writes the page that lists the entries of a directory.
pub fn render_listing(entries: &Vec<Entry>) -> (page: String)
    ensures
        page@ == listing(entries@),
{
    let mut content = String::new();
    let mut i: usize = 0;
    while i < entries.len()
        invariant
            i <= entries@.len(),
            content@ == entry_lines(entries@, i as int),
        decreases entries@.len() - i,
    {
        content.append("<li><a href=\"");
        content.append(entries[i].path.as_str());
        content.append("\">");
        content.append(entries[i].name.as_str());
        content.append("</li>");
        i += 1;
    }
    let mut page = String::from_str("<html><body><ul>");
    page.append(content.as_str());
    page.append("</ul></body></html>");
    page
}

/// Decides the answer for a lookup of the path shown as `shown`: a missing
/// path is not found, a directory is listed, a file is given as it is, and
/// a failure to read is an error of the server that carries the reason.
pub fn file_page(shown: &str, lookup: Lookup) -> (page: Page)
    ensures
        page.status == status_for(lookup),
        page.body@ == body_for(shown@, lookup),
{
    match lookup {
        Lookup::Missing => {
            let mut body = String::from_str("File ");
            body.append(shown);
            body.append(" not found");
            Page { status: STATUS_NOT_FOUND, body }
        },
        Lookup::Directory(entries) => Page { status: STATUS_OK, body: render_listing(&entries) },
        Lookup::File(content) => Page { status: STATUS_OK, body: content },
        Lookup::Failed(reason) => Page { status: STATUS_INTERNAL_SERVER_ERROR, body: reason },
    }
}

} // verus!
