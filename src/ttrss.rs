//! The import client: request bodies for the feed reader's API, the
//! decisions taken on its responses, and the classification of the import
//! report into added and duplicate events.

use vstd::prelude::*;
use crate::text::{is_prefix_of, starts_with};
use crate::youtube::opt_view;

verus! {

/// The session a successful login opens.
#[derive(Debug)]
pub struct Login {
    pub session_id: String,
    pub api_level: u8,
}

/// The report of a successful import: its lines, and the texts that open
/// a line about a duplicate feed and a line about an added feed.
#[derive(Debug)]
pub struct ImportOpml {
    pub message: Vec<String>,
    pub duplicate_message: String,
    pub added_message: String,
}

/// The content of a response, told apart by its shape: a login result, an
/// import report, or anything else.
#[derive(Debug)]
pub enum Content {
    Login(Login),
    ImportOpml(ImportOpml),
    Error(String),
}

/// A response envelope of the feed reader's API. `raw_content` is the
/// content as the service sent it, kept for diagnostics.
#[derive(Debug)]
pub struct ResponseResult {
    pub seq: i32,
    pub status: i32,
    pub content: Content,
    pub raw_content: String,
}

/// Why talking to the feed reader failed; the failures carry the raw
/// content of the response.
#[derive(Debug, PartialEq, Eq)]
pub enum TtrssError {
    InvalidUrl,
    LoginFailed(String),
    ImportFailed(String),
}

/// The URL that `relative` names when resolved against the absolute URL
/// `base`, in serialised form; `None` when either does not parse.
pub uninterp spec fn joined_url_of(base: Seq<char>, relative: Seq<char>) -> Option<Seq<char>>;

/// A string written as a JSON string literal.
pub uninterp spec fn json_string_of(s: Seq<char>) -> Seq<char>;

/// The standard, padded base64 encoding of a text's UTF-8 bytes.
pub uninterp spec fn base64_of(text: Seq<char>) -> Seq<char>;

/// The characters with Unicode's White_Space property.
pub open spec fn is_white_space(c: char) -> bool {
    let u = c as u32;
    (0x09 <= u <= 0x0D) || u == 0x20 || u == 0x85 || u == 0xA0 || u == 0x1680 || (0x2000 <= u
        <= 0x200A) || u == 0x2028 || u == 0x2029 || u == 0x202F || u == 0x205F || u == 0x3000
}

/// The number of whitespace characters that open `s`.
pub open spec fn leading_space(s: Seq<char>) -> nat
    decreases s.len(),
{
    if s.len() > 0 && is_white_space(s[0]) {
        1 + leading_space(s.drop_first())
    } else {
        0
    }
}

/// The number of whitespace characters that close `s`.
pub open spec fn trailing_space(s: Seq<char>) -> nat
    decreases s.len(),
{
    if s.len() > 0 && is_white_space(s.last()) {
        1 + trailing_space(s.drop_last())
    } else {
        0
    }
}

/// `s` without its leading whitespace.
pub open spec fn trim_start_of(s: Seq<char>) -> Seq<char> {
    s.skip(leading_space(s) as int)
}

/// `s` without its leading and trailing whitespace.
pub open spec fn trim_of(s: Seq<char>) -> Seq<char> {
    let t = trim_start_of(s);
    t.take(t.len() - trailing_space(t))
}

/// Relies on url's Url::parse of `base`, then Url::join of `relative` on
/// the parsed URL (through reqwest's re-export of url::Url), serialised
/// with `to_string`; `None` when either call returns an error.
#[verifier::external_body]
fn join_url(base: &str, relative: &str) -> (r: Option<String>)
    ensures
        opt_view(r) == joined_url_of(base@, relative@),
{
    match reqwest::Url::parse(base) {
        Ok(u) => match u.join(relative) {
            Ok(j) => Some(j.to_string()),
            Err(_) => None,
        },
        Err(_) => None,
    }
}

/// Relies on serde_json's serializer, through the `Display` of
/// serde_json::Value::String: the JSON literal of a string.
#[verifier::external_body]
fn json_string(s: &str) -> (r: String)
    ensures
        r@ == json_string_of(s@),
{
    serde_json::Value::String(s.to_owned()).to_string()
}

/// Relies on base64's Engine::encode with the STANDARD engine. It panics
/// only when the encoded length overflows `usize`, which no string reaches.
#[verifier::external_body]
fn base64_encode(text: &str) -> (r: String)
    ensures
        r@ == base64_of(text@),
{
    base64::Engine::encode(&base64::engine::general_purpose::STANDARD, text)
}

/// Relies on str::trim_start: removes the leading characters with the
/// White_Space property.
#[verifier::external_body]
fn trim_start(s: &str) -> (r: &str)
    ensures
        r@ == trim_start_of(s@),
{
    s.trim_start()
}

/// Relies on str::trim: removes the leading and the trailing characters
/// with the White_Space property.
#[verifier::external_body]
fn trim(s: &str) -> (r: &str)
    ensures
        r@ == trim_of(s@),
{
    s.trim()
}

/// The API endpoint of the feed reader at `base`: `api/` resolved against
/// it.
pub fn api_endpoint(base: &str) -> (r: Result<String, TtrssError>)
    ensures
        r is Err <==> joined_url_of(base@, "api/"@) is None,
        r matches Ok(u) ==> joined_url_of(base@, "api/"@) == Some(u@),
        r matches Err(e) ==> e == TtrssError::InvalidUrl,
{
    match join_url(base, "api/") {
        Some(u) => Ok(u),
        None => Err(TtrssError::InvalidUrl),
    }
}

/// The body of a login request.
pub open spec fn login_body(user: Seq<char>, password: Seq<char>) -> Seq<char> {
    "{\"op\":\"login\",\"password\":"@ + json_string_of(password) + ",\"user\":"@
        + json_string_of(user) + "}"@
}

/// The body of an import request for `opml` in session `sid`.
pub open spec fn import_body(opml: Seq<char>, sid: Seq<char>) -> Seq<char> {
    "{\"op\":\"importOPML\",\"opml\":"@ + json_string_of(base64_of(opml)) + ",\"sid\":"@
        + json_string_of(sid) + "}"@
}

/// Builds the JSON body that logs `user` in with `password`.
pub fn login_request_body(user: &str, password: &str) -> (r: String)
    ensures
        r@ == login_body(user@, password@),
{
    let mut r = String::from_str("{\"op\":\"login\",\"password\":");
    let p = json_string(password);
    r.append(p.as_str());
    r.append(",\"user\":");
    let u = json_string(user);
    r.append(u.as_str());
    r.append("}");
    proof {
        assert(r@ =~= login_body(user@, password@));
    }
    r
}

/// Builds the JSON body that uploads the document `opml`, base64-encoded,
/// in the session `sid`.
pub fn import_request_body(opml: &str, sid: &str) -> (r: String)
    ensures
        r@ == import_body(opml@, sid@),
{
    let mut r = String::from_str("{\"op\":\"importOPML\",\"opml\":");
    let encoded = base64_encode(opml);
    let q = json_string(encoded.as_str());
    r.append(q.as_str());
    r.append(",\"sid\":");
    let s = json_string(sid);
    r.append(s.as_str());
    r.append("}");
    proof {
        assert(r@ =~= import_body(opml@, sid@));
    }
    r
}

/// Decides a login response: the session id when the status is zero and
/// the content is a login result, else a failure carrying the raw content.
pub fn login_outcome(response: ResponseResult) -> (r: Result<String, TtrssError>)
    ensures
        r is Ok <==> (response.status == 0 && response.content is Login),
        r matches Ok(sid) ==> response.content matches Content::Login(l) && sid == l.session_id,
        r matches Err(e) ==> e == TtrssError::LoginFailed(response.raw_content),
{
    let ResponseResult { seq: _, status, content, raw_content } = response;
    if status != 0 {
        return Err(TtrssError::LoginFailed(raw_content));
    }
    match content {
        Content::Login(l) => Ok(l.session_id),
        _ => Err(TtrssError::LoginFailed(raw_content)),
    }
}

/// Decides an import response: the report when the status is zero and the
/// content is an import report, else a failure carrying the raw content.
pub fn import_outcome(response: ResponseResult) -> (r: Result<ImportOpml, TtrssError>)
    ensures
        r is Ok <==> (response.status == 0 && response.content is ImportOpml),
        r matches Ok(rep) ==> response.content == Content::ImportOpml(rep),
        r matches Err(e) ==> e == TtrssError::ImportFailed(response.raw_content),
{
    let ResponseResult { seq: _, status, content, raw_content } = response;
    if status != 0 {
        return Err(TtrssError::ImportFailed(raw_content));
    }
    match content {
        Content::ImportOpml(rep) => Ok(rep),
        _ => Err(TtrssError::ImportFailed(raw_content)),
    }
}

/// The views of a sequence of strings.
pub open spec fn line_views(lines: Seq<String>) -> Seq<Seq<char>> {
    lines.map_values(|s: String| s@)
}

/// The lines that, without their leading whitespace, start with `marker`,
/// each trimmed, in report order.
pub open spec fn marked_events(lines: Seq<Seq<char>>, marker: Seq<char>) -> Seq<Seq<char>>
    decreases lines.len(),
{
    if lines.len() == 0 {
        Seq::empty()
    } else {
        let rest = marked_events(lines.drop_last(), marker);
        if is_prefix_of(marker, trim_start_of(lines.last())) {
            rest.push(trim_of(lines.last()))
        } else {
            rest
        }
    }
}

/// Collects the report lines that start with `starting_message` once their
/// leading whitespace is removed, each trimmed, in report order.
pub fn filter_events(lines: &Vec<String>, starting_message: &str) -> (r: Vec<String>)
    ensures
        line_views(r@) == marked_events(line_views(lines@), starting_message@),
{
    let mut out: Vec<String> = Vec::new();
    let mut i: usize = 0;
    while i < lines.len()
        invariant
            i <= lines@.len(),
            line_views(out@) == marked_events(
                line_views(lines@.take(i as int)),
                starting_message@,
            ),
        decreases lines@.len() - i,
    {
        let line = lines[i].as_str();
        let head = trim_start(line);
        let old_out = Ghost(out@);
        if starts_with(head, starting_message) {
            let t = trim(line);
            out.push(String::from_str(t));
            proof {
                assert(line_views(out@) =~= line_views(old_out@).push(trim_of(lines@[i as int]@)));
            }
        }
        proof {
            let lv = line_views(lines@.take(i + 1));
            assert(lv.drop_last() =~= line_views(lines@.take(i as int)));
            assert(lv.last() == lines@[i as int]@);
        }
        i = i + 1;
    }
    proof {
        assert(lines@.take(lines@.len() as int) =~= lines@);
    }
    out
}

/// The number of events a report of `lines` describes: every line but the
/// opening banner and the closing separator. `None` when the report is too
/// short to hold both.
pub fn total_events(lines: &Vec<String>) -> (r: Option<usize>)
    ensures
        r is Some <==> lines@.len() >= 2,
        r matches Some(t) ==> t == lines@.len() - 2,
{
    if lines.len() >= 2 {
        Some(lines.len() - 2)
    } else {
        None
    }
}

/// What an import did: the number of events, and the added and duplicate
/// event lines.
#[derive(Debug)]
pub struct ImportSummary {
    pub total: Option<usize>,
    pub added: Vec<String>,
    pub duplicated: Vec<String>,
}

/// Summarises an import report.
pub fn summarize(report: &ImportOpml) -> (r: ImportSummary)
    ensures
        r.total == (if report.message@.len() >= 2 {
            Some((report.message@.len() - 2) as usize)
        } else {
            None
        }),
        line_views(r.added@) == marked_events(
            line_views(report.message@),
            report.added_message@,
        ),
        line_views(r.duplicated@) == marked_events(
            line_views(report.message@),
            report.duplicate_message@,
        ),
{
    let total = total_events(&report.message);
    let added = filter_events(&report.message, report.added_message.as_str());
    let duplicated = filter_events(&report.message, report.duplicate_message.as_str());
    ImportSummary { total, added, duplicated }
}

/// Where an import session stands.
#[derive(Debug)]
pub enum Stage {
    LoggedOut,
    LoggedIn(String),
    Finished,
}

/// An import session: it logs in, then uploads one document under the
/// session id the login gave, and ends after the upload or the first
/// failure. A session id lives only inside its session.
#[derive(Debug)]
pub struct ImportSession {
    pub document: String,
    pub user: String,
    pub password: String,
    pub stage: Stage,
}

/// Seconds the upload may take; the login carries no bound.
pub const IMPORT_TIMEOUT_SECS: u64 = 60;

impl ImportSession {
    /// A session that has not logged in yet.
    pub fn new(document: String, user: String, password: String) -> (r: ImportSession)
        ensures
            r.stage == Stage::LoggedOut,
            r.document == document,
            r.user == user,
            r.password == password,
    {
        ImportSession { document, user, password, stage: Stage::LoggedOut }
    }

    /// Whether the session has ended.
    pub fn is_finished(&self) -> (r: bool)
        ensures
            r == (self.stage is Finished),
    {
        match self.stage {
            Stage::Finished => true,
            _ => false,
        }
    }

    /// The body of the request to send next: the login while logged out,
    /// the upload once logged in, nothing once finished.
    pub fn next_request_body(&self) -> (r: Option<String>)
        ensures
            self.stage is LoggedOut ==> opt_view(r) == Some(login_body(self.user@, self.password@)),
            self.stage matches Stage::LoggedIn(sid) ==> opt_view(r) == Some(
                import_body(self.document@, sid@),
            ),
            self.stage is Finished ==> r is None,
    {
        match &self.stage {
            Stage::LoggedOut => Some(login_request_body(self.user.as_str(), self.password.as_str())),
            Stage::LoggedIn(sid) => Some(import_request_body(self.document.as_str(), sid.as_str())),
            Stage::Finished => None,
        }
    }

    /// The time bound of the next request, in seconds: only the upload
    /// has one.
    pub fn next_request_timeout_secs(&self) -> (r: Option<u64>)
        ensures
            r == (if self.stage is LoggedIn {
                Some(IMPORT_TIMEOUT_SECS)
            } else {
                None
            }),
    {
        match &self.stage {
            Stage::LoggedIn(_) => Some(IMPORT_TIMEOUT_SECS),
            _ => None,
        }
    }

    /// Takes the response to the request last sent. A login result moves
    /// the session to logged in; an import report ends it and is
    /// returned; any other response ends it with a failure carrying the
    /// raw content. A finished session ignores responses.
    pub fn on_response(&mut self, response: ResponseResult) -> (r: Result<
        Option<ImportOpml>,
        TtrssError,
    >)
        ensures
            final(self).document == old(self).document,
            final(self).user == old(self).user,
            final(self).password == old(self).password,
            old(self).stage is Finished ==> r == Ok::<Option<ImportOpml>, TtrssError>(None)
                && final(self).stage is Finished,
            old(self).stage is LoggedOut ==> {
                if response.status == 0 && response.content is Login {
                    &&& response.content matches Content::Login(l) && final(self).stage
                        == Stage::LoggedIn(l.session_id)
                    &&& r == Ok::<Option<ImportOpml>, TtrssError>(None)
                } else {
                    &&& final(self).stage is Finished
                    &&& r == Err::<Option<ImportOpml>, TtrssError>(
                        TtrssError::LoginFailed(response.raw_content),
                    )
                }
            },
            old(self).stage is LoggedIn ==> {
                &&& final(self).stage is Finished
                &&& if response.status == 0 && response.content is ImportOpml {
                    response.content matches Content::ImportOpml(rep) && r == Ok::<
                        Option<ImportOpml>,
                        TtrssError,
                    >(Some(rep))
                } else {
                    r == Err::<Option<ImportOpml>, TtrssError>(
                        TtrssError::ImportFailed(response.raw_content),
                    )
                }
            },
    {
        match self.stage {
            Stage::Finished => Ok(None),
            Stage::LoggedOut => match login_outcome(response) {
                Ok(sid) => {
                    self.stage = Stage::LoggedIn(sid);
                    Ok(None)
                },
                Err(e) => {
                    self.stage = Stage::Finished;
                    Err(e)
                },
            },
            Stage::LoggedIn(_) => {
                self.stage = Stage::Finished;
                match import_outcome(response) {
                    Ok(rep) => Ok(Some(rep)),
                    Err(e) => Err(e),
                }
            },
        }
    }
}

} // verus!
