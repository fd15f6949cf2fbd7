use vstd::prelude::*;

use crate::content_type::{content_type_of, extension_of, type_for_extension, ContentType};
use crate::fetch::{fetch_file, get_404_page, not_found_body, read_view};
use crate::request::{lookup_path, not_found_path, path_of_head, request_path};
use crate::response::{status_text, wire_bytes, Response, StatusCode};

verus! {

/// Where the handling of one connection stands.
#[derive(Debug, Clone, Copy, PartialEq, Eq, Structural)]
pub enum Stage {
    /// The request head has not been seen yet.
    AwaitingHead,
    /// The requested file, of this content type, is being read.
    ReadingFile(ContentType),
    /// The not-found page is being read.
    ReadingNotFoundPage,
    /// Nothing is left to do.
    Done,
}

/// What the connection's owner is to do next.
pub enum Action {
    /// Close the connection without writing anything.
    Close,
    /// Read the whole file at this path and report the outcome.
    Read(String),
    /// Write these bytes to the connection, then close it.
    Send(Vec<u8>),
}

/// An action, seen as plain values.
pub enum ActionView {
    Close,
    Read(Seq<char>),
    Send(Seq<u8>),
}

impl View for Action {
    type V = ActionView;

    open spec fn view(&self) -> ActionView {
        match self {
            Action::Close => ActionView::Close,
            Action::Read(p) => ActionView::Read(p@),
            Action::Send(b) => ActionView::Send(b@),
        }
    }
}

/// Turning to the not-found page.
pub open spec fn not_found_step(folder: Seq<char>) -> (Stage, ActionView) {
    (Stage::ReadingNotFoundPage, ActionView::Read(folder + "/notfound.html"@))
}

/// The step taken on a request head: close on an empty or malformed head, read the
/// requested file when its extension is supported, else turn to the not-found page.
pub open spec fn head_step(folder: Seq<char>, head: Seq<Seq<char>>) -> (Stage, ActionView) {
    match path_of_head(head) {
        Err(_) => (Stage::Done, ActionView::Close),
        Ok(p) => match type_for_extension(extension_of(folder + p)) {
            Some(ct) => (Stage::ReadingFile(ct), ActionView::Read(folder + p)),
            None => not_found_step(folder),
        },
    }
}

/// The step taken on the outcome of a read: the requested file is sent with 200, or on
/// failure the not-found page is read; the not-found page is sent with 404 as HTML.
pub open spec fn read_step(folder: Seq<char>, stage: Stage, read: Result<Seq<u8>, Seq<char>>) -> (
    Stage,
    ActionView,
) {
    match stage {
        Stage::ReadingFile(ct) => match read {
            Ok(b) => (Stage::Done, ActionView::Send(wire_bytes(status_text(StatusCode::Success), ct, b))),
            Err(_) => not_found_step(folder),
        },
        _ => (
            Stage::Done,
            ActionView::Send(
                wire_bytes(status_text(StatusCode::NotFound), ContentType::Html, not_found_body(read)),
            ),
        ),
    }
}

/// A request for a file whose extension is supported (`pdf`, `html`, `css`, or `JPG`
/// as written) reads that file under the root folder; once it is read, the reply is 200
/// with that extension's content type and the file's bytes unchanged.
pub proof fn law_supported_file_is_served(
    folder: Seq<char>,
    head: Seq<Seq<char>>,
    ext: Seq<char>,
    bytes: Seq<u8>,
)
    requires
        path_of_head(head) is Ok,
        extension_of(folder + path_of_head(head)->Ok_0) == Some(ext),
        ext == "pdf"@ || ext == "html"@ || ext == "css"@ || ext == "JPG"@,
    ensures
        ({
            let path = folder + path_of_head(head)->Ok_0;
            let ct = type_for_extension(Some(ext))->Some_0;
            &&& type_for_extension(Some(ext)) is Some
            &&& ext == "pdf"@ ==> ct == ContentType::Pdf
            &&& ext == "html"@ ==> ct == ContentType::Html
            &&& ext == "css"@ ==> ct == ContentType::Css
            &&& ext == "JPG"@ ==> ct == ContentType::Jpg
            &&& head_step(folder, head) == (Stage::ReadingFile(ct), ActionView::Read(path))
            &&& read_step(folder, Stage::ReadingFile(ct), Ok(bytes)) == (
                Stage::Done,
                ActionView::Send(wire_bytes(status_text(StatusCode::Success), ct, bytes)),
            )
        }),
{
    reveal_strlit("pdf");
    reveal_strlit("html");
    reveal_strlit("css");
    reveal_strlit("JPG");
    assert("pdf"@[0] != "css"@[0] && "pdf"@[0] != "JPG"@[0] && "css"@[0] != "JPG"@[0]);
    assert("html"@.len() != "pdf"@.len() && "html"@.len() != "css"@.len());
    assert("html"@.len() != "JPG"@.len());
}

/// A request whose file cannot be served, because its extension is unsupported or
/// missing or because the file cannot be read, turns to `notfound.html` at the top of
/// the root folder; the reply is then 404, HTML, with that page's bytes.
pub proof fn law_failure_serves_not_found_page(
    folder: Seq<char>,
    head: Seq<Seq<char>>,
    cause: Seq<char>,
    page: Seq<u8>,
)
    requires
        path_of_head(head) is Ok,
    ensures
        ({
            let path = folder + path_of_head(head)->Ok_0;
            let (stage, action) = head_step(folder, head);
            &&& type_for_extension(extension_of(path)) is None ==> (stage, action)
                == not_found_step(folder)
            &&& type_for_extension(extension_of(path)) is Some ==> read_step(
                folder,
                stage,
                Err(cause),
            ) == not_found_step(folder)
            &&& not_found_step(folder) == (
                Stage::ReadingNotFoundPage,
                ActionView::Read(folder + "/notfound.html"@),
            )
            &&& read_step(folder, Stage::ReadingNotFoundPage, Ok(page)) == (
                Stage::Done,
                ActionView::Send(
                    wire_bytes(status_text(StatusCode::NotFound), ContentType::Html, page),
                ),
            )
        }),
{
}

/// The handling of one connection, given the root folder it serves from.
pub struct Handler {
    pub folder: String,
    pub stage: Stage,
}

impl Handler {
    /// A handler that waits for the request head.
    pub fn new(folder: String) -> (r: Handler)
        ensures
            r.folder@ == folder@,
            r.stage == Stage::AwaitingHead,
    {
        Handler { folder, stage: Stage::AwaitingHead }
    }

    fn turn_to_not_found(&mut self) -> (a: Action)
        ensures
            final(self).folder == old(self).folder,
            (final(self).stage, a@) == not_found_step(old(self).folder@),
    {
        self.stage = Stage::ReadingNotFoundPage;
        Action::Read(not_found_path(self.folder.as_str()))
    }

    /// Takes the request head: the lines before the first blank one.
    pub fn on_head(&mut self, head: &Vec<String>) -> (a: Action)
        requires
            old(self).stage == Stage::AwaitingHead,
        ensures
            final(self).folder == old(self).folder,
            (final(self).stage, a@) == head_step(old(self).folder@, head.deep_view()),
    {
        match request_path(head) {
            Err(_) => {
                self.stage = Stage::Done;
                Action::Close
            },
            Ok(p) => {
                let path = lookup_path(self.folder.as_str(), p.as_str());
                match content_type_of(path.as_str()) {
                    Ok(ct) => {
                        self.stage = Stage::ReadingFile(ct);
                        Action::Read(path)
                    },
                    Err(_) => self.turn_to_not_found(),
                }
            },
        }
    }

    /// Takes the outcome of the read that the last action asked for.
    pub fn on_read(&mut self, read: Result<Vec<u8>, String>) -> (a: Action)
        requires
            old(self).stage is ReadingFile || old(self).stage is ReadingNotFoundPage,
        ensures
            final(self).folder == old(self).folder,
            (final(self).stage, a@) == read_step(old(self).folder@, old(self).stage, read_view(&read)),
    {
        match self.stage {
            Stage::ReadingFile(ct) => match fetch_file(ct, read) {
                Ok(fc) => {
                    let mut response = Response::new();
                    response.status_line = StatusCode::Success.as_str();
                    response.content_type = fc.content_type;
                    response.content = fc.contents;
                    self.stage = Stage::Done;
                    Action::Send(response.as_bytes())
                },
                Err(_) => self.turn_to_not_found(),
            },
            _ => {
                let page = get_404_page(fetch_file(ContentType::Html, read));
                let mut response = Response::new();
                response.status_line = StatusCode::NotFound.as_str();
                response.content_type = ContentType::Html;
                response.content = page;
                self.stage = Stage::Done;
                Action::Send(response.as_bytes())
            },
        }
    }
}

} // verus!
