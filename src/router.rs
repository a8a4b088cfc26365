use vstd::prelude::*;
use vstd::string::StringExecFns;

verus! {

/// Whether a character has the Unicode `White_Space` property.
pub open spec fn white_space(c: char) -> bool {
    let n = c as u32;
    (0x9 <= n <= 0xd) || n == 0x20 || n == 0x85 || n == 0xa0 || n == 0x1680 || (0x2000 <= n
        <= 0x200a) || n == 0x2028 || n == 0x2029 || n == 0x202f || n == 0x205f || n == 0x3000
}

/// `s` without its leading white space.
pub open spec fn trim_start(s: Seq<char>) -> Seq<char>
    decreases s.len(),
{
    if s.len() > 0 && white_space(s[0]) {
        trim_start(s.drop_first())
    } else {
        s
    }
}

/// `s` without its trailing white space.
pub open spec fn trim_end(s: Seq<char>) -> Seq<char>
    decreases s.len(),
{
    if s.len() > 0 && white_space(s.last()) {
        trim_end(s.drop_last())
    } else {
        s
    }
}

/// `s` without white space at either end.
pub open spec fn trimmed(s: Seq<char>) -> Seq<char> {
    trim_end(trim_start(s))
}

/// Relies on `str::trim`: it removes leading and trailing characters that have
/// the Unicode `White_Space` property.
#[verifier::external_body]
fn trim_text(s: &str) -> (r: String)
    ensures
        r@ == trimmed(s@),
{
    s.trim().to_string()
}

/// The handler that a request is dispatched to.
#[derive(Debug, Clone, Copy, PartialEq, Eq, Structural)]
pub enum Route {
    /// `GET /health`: the liveness and identity probe.
    Health,
    /// Every other method and path.
    NotFound,
}

pub open spec fn route_of(method: Seq<char>, path: Seq<char>) -> Route {
    if method == "GET"@ && path == "/health"@ {
        Route::Health
    } else {
        Route::NotFound
    }
}

/// Exact-match dispatch on method and path.
pub fn route(method: &str, path: &str) -> (r: Route)
    ensures
        r == route_of(method@, path@),
{
    let m = method.to_string();
    let p = path.to_string();
    let get = "GET".to_string();
    let health = "/health".to_string();
    if m == get && p == health {
        Route::Health
    } else {
        Route::NotFound
    }
}

/// A response: its status code and its body.
#[derive(Debug, Clone)]
pub struct HttpReply {
    pub status: u16,
    pub body: String,
}

/// The body of the catch-all response.
pub open spec fn not_found_body() -> Seq<char> {
    "Not Found\n"@
}

/// The fixed response for every request that matches no route.
pub fn not_found() -> (r: HttpReply)
    ensures
        r.status == 404,
        r.body@ == not_found_body(),
{
    HttpReply { status: 404, body: "Not Found\n".to_string() }
}

/// What stands in the health body for one identity file: its trimmed text, or
/// `unknown` where the file could not be read.
pub open spec fn identity_field(file: Option<Seq<char>>) -> Seq<char> {
    match file {
        Some(text) => trimmed(text),
        None => "unknown"@,
    }
}

pub open spec fn health_body(hash_file: Option<Seq<char>>, branch_file: Option<Seq<char>>) -> Seq<char> {
    "GIT_HASH: "@ + identity_field(hash_file) + "\nGIT_BRANCH: "@ + identity_field(branch_file)
        + "\n"@
}

pub open spec fn file_view(file: Option<String>) -> Option<Seq<char>> {
    match file {
        Some(text) => Some(text@),
        None => None,
    }
}

fn identity_text(file: &Option<String>) -> (r: String)
    ensures
        r@ == identity_field(file_view(*file)),
{
    match file {
        Some(text) => trim_text(text.as_str()),
        None => "unknown".to_string(),
    }
}

/// The health response, given the contents of the revision and branch files
/// (`None` for a file that could not be read). It never fails.
pub fn health_reply(hash_file: Option<String>, branch_file: Option<String>) -> (r: HttpReply)
    ensures
        r.status == 200,
        r.body@ == health_body(file_view(hash_file), file_view(branch_file)),
{
    let hash = identity_text(&hash_file);
    let branch = identity_text(&branch_file);
    let mut body = "GIT_HASH: ".to_string();
    body.append(hash.as_str());
    body.append("\nGIT_BRANCH: ");
    body.append(branch.as_str());
    body.append("\n");
    HttpReply { status: 200, body }
}

} // verus!
