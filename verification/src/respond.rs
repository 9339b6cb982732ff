//! The resolver and response builder.
//!
//! A request path resolves to the bytes of a file under the source
//! root, or of its index fallback. The response carries those bytes
//! unchanged, except that an HTML body in valid UTF-8 gets the reload
//! snippet appended; the content type comes from the extension of the
//! finally resolved path.

use crate::paths::extension_of;
use crate::paths::extension_of_path;
use crate::paths::fallback_candidate;
use crate::paths::fallback_candidate_spec;
use crate::paths::first_candidate;
use crate::paths::first_candidate_spec;
use crate::paths::lemma_fallback_extension;
use crate::utf8check::is_utf8;
use vstd::prelude::*;
use vstd::string::StringSliceAdditionalSpecFns;
use vstd::utf8::valid_utf8;

verus! {

/// The reload snippet: a fragment appended to every HTML response. It
/// records the first value `/hot` returns, polls it about once per
/// second, and reloads the page when the value changes; a failed poll
/// is ignored and retried.
pub const RELOAD_SNIPPET: &'static str = "\n<script>\n(function () {\n  var seen = null;\n  function poll() {\n    fetch(\"/hot\").then(function (res) {\n      return res.text();\n    }).then(function (value) {\n      if (seen === null) {\n        seen = value;\n      } else if (value !== seen) {\n        location.reload();\n      }\n    }).catch(function () {});\n  }\n  poll();\n  setInterval(poll, 1000);\n})();\n</script>\n";

/// The bytes the reload snippet adds to an HTML body.
pub open spec fn snippet_bytes() -> Seq<u8> {
    RELOAD_SNIPPET.spec_bytes()
}

/// What the server knows of a MIME type for an extension: the common
/// web extensions, looked up case-sensitively; anything else has none,
/// and the response then carries no content type.
pub open spec fn mime_rep(ext: Seq<char>) -> Option<Seq<char>> {
    if ext == "html"@ {
        Some("text/html"@)
    } else if ext == "css"@ {
        Some("text/css"@)
    } else if ext == "js"@ || ext == "mjs"@ || ext == "jsonp"@ {
        Some("application/javascript"@)
    } else if ext == "json"@ {
        Some("application/json"@)
    } else if ext == "svg"@ {
        Some("image/svg+xml"@)
    } else if ext == "xml"@ {
        Some("application/xml"@)
    } else if ext == "png"@ {
        Some("image/png"@)
    } else {
        None
    }
}

/// The body sent for a file with the given extension: HTML in valid
/// UTF-8 gets the reload snippet appended, everything else is served
/// byte for byte.
pub open spec fn response_body_rep(file: Seq<u8>, ext: Seq<char>) -> Seq<u8> {
    if ext == "html"@ && valid_utf8(file) {
        file + snippet_bytes()
    } else {
        file
    }
}

/// Compare two strings by their characters.
fn str_eq(a: &str, b: &str) -> (r: bool)
    ensures
        r == (a@ == b@),
{
    let x = a.to_owned();
    let y = b.to_owned();
    x == y
}

/// Look up the MIME type for an extension.
pub fn mime_for_extension(ext: &str) -> (r: Option<String>)
    ensures
        r.deep_view() == mime_rep(ext@),
{
    if str_eq(ext, "html") {
        Some("text/html".to_owned())
    } else if str_eq(ext, "css") {
        Some("text/css".to_owned())
    } else if str_eq(ext, "js") || str_eq(ext, "mjs") || str_eq(ext, "jsonp") {
        Some("application/javascript".to_owned())
    } else if str_eq(ext, "json") {
        Some("application/json".to_owned())
    } else if str_eq(ext, "svg") {
        Some("image/svg+xml".to_owned())
    } else if str_eq(ext, "xml") {
        Some("application/xml".to_owned())
    } else if str_eq(ext, "png") {
        Some("image/png".to_owned())
    } else {
        None
    }
}

/// Build the body for a served file: append the reload snippet when the
/// extension is `html` and the bytes are valid UTF-8 text, otherwise
/// hand the bytes back unchanged.
pub fn build_body(file: Vec<u8>, ext: &str) -> (r: Vec<u8>)
    ensures
        r@ == response_body_rep(file@, ext@),
{
    let mut body = file;
    if str_eq(ext, "html") && is_utf8(&body) {
        body.extend_from_slice(RELOAD_SNIPPET.as_bytes());
    }
    body
}

/// What the resolver produced for a request: the file bytes when a
/// candidate could be read, the extension of the finally resolved
/// path, and the status code.
pub struct ResolvedFile {
    pub bytes: Option<Vec<u8>>,
    pub extension: String,
    pub status: u16,
}

/// Apply the resolution policy to the outcome of the candidate reads:
/// the first candidate (the path itself, `index.html` for the root
/// request) wins when readable; otherwise `<path>/index.html` is
/// tried; otherwise the result is 404 with no bytes.
pub fn resolve(path: &str, first_read: Option<Vec<u8>>, fallback_read: Option<Vec<u8>>) -> (r:
    ResolvedFile)
    ensures
        first_read is Some ==> r.status == 200 && r.bytes == first_read && r.extension@
            == extension_of(first_candidate_spec(path@)),
        first_read is None && fallback_read is Some ==> r.status == 200 && r.bytes == fallback_read
            && r.extension@ == extension_of(fallback_candidate_spec(path@)),
        first_read is None && fallback_read is None ==> r.status == 404 && r.bytes is None
            && r.extension@ == Seq::<char>::empty(),
{
    match first_read {
        Some(b) => {
            let cand = first_candidate(path);
            let ext = extension_of_path(cand.as_str());
            ResolvedFile { bytes: Some(b), extension: ext, status: 200 }
        },
        None => match fallback_read {
            Some(b) => {
                let cand = fallback_candidate(path);
                let ext = extension_of_path(cand.as_str());
                ResolvedFile { bytes: Some(b), extension: ext, status: 200 }
            },
            None => ResolvedFile { bytes: None, extension: String::new(), status: 404 },
        },
    }
}

/// A response ready to send: status, body bytes and content type.
pub struct HttpPayload {
    pub status: u16,
    pub body: Vec<u8>,
    pub content_type: Option<String>,
}

/// Turn a resolved file into a response: a found file is served with
/// the body the builder produces and the MIME type of its extension; a
/// miss is a 404 with an empty body and no content type.
pub fn respond(file: ResolvedFile) -> (p: HttpPayload)
    ensures
        p.status == file.status,
        file.bytes matches Some(b) ==> p.body@ == response_body_rep(b@, file.extension@)
            && p.content_type.deep_view() == mime_rep(file.extension@),
        file.bytes is None ==> p.body@ == Seq::<u8>::empty() && p.content_type is None,
{
    match file.bytes {
        Some(b) => {
            let content_type = mime_for_extension(file.extension.as_str());
            let body = build_body(b, file.extension.as_str());
            HttpPayload { status: file.status, body, content_type }
        },
        None => HttpPayload { status: file.status, body: Vec::new(), content_type: None },
    }
}

/// Handle one request: resolve the path against the outcome of the two
/// candidate reads and build the response.
pub fn handle_request(path: &str, first_read: Option<Vec<u8>>, fallback_read: Option<Vec<u8>>) -> (
    p: HttpPayload)
    ensures
        first_read matches Some(b) ==> p.status == 200 && p.body@ == response_body_rep(
            b@,
            extension_of(first_candidate_spec(path@)),
        ) && p.content_type.deep_view() == mime_rep(extension_of(first_candidate_spec(path@))),
        first_read is None ==> (fallback_read matches Some(b) ==> p.status == 200 && p.body@
            == response_body_rep(b@, "html"@) && p.content_type.deep_view() == Some("text/html"@)),
        first_read is None && fallback_read is None ==> p.status == 404 && p.body@
            == Seq::<u8>::empty() && p.content_type is None,
{
    proof {
        lemma_fallback_extension(path@);
    }
    let resolved = resolve(path, first_read, fallback_read);
    respond(resolved)
}

/// Serving is idempotent: for an unchanged file and extension the
/// response body is the same, byte for byte, on every request.
pub proof fn lemma_serving_idempotent(
    file1: Seq<u8>,
    ext1: Seq<char>,
    file2: Seq<u8>,
    ext2: Seq<char>,
)
    requires
        file1 == file2,
        ext1 == ext2,
    ensures
        response_body_rep(file1, ext1) == response_body_rep(file2, ext2),
{
}

/// Snippet injection is HTML-only: with any extension other than
/// `html` the body is the file bytes exactly, whatever they hold.
pub proof fn lemma_injection_html_only(file: Seq<u8>, ext: Seq<char>)
    requires
        ext != "html"@,
    ensures
        response_body_rep(file, ext) == file,
{
}

/// The snippet is a suffix: an HTML body in valid UTF-8 is sent as the
/// file bytes followed by the reload snippet, exactly.
pub proof fn lemma_snippet_is_suffix(file: Seq<u8>)
    requires
        valid_utf8(file),
    ensures
        response_body_rep(file, "html"@) == file + snippet_bytes(),
{
}

/// Index fallback: when the path itself cannot be read but its
/// `index.html` fallback can, the response is the fallback file served
/// as HTML, snippet included for UTF-8 text.
pub proof fn lemma_index_fallback(path: Seq<char>, file: Seq<u8>)
    requires
        valid_utf8(file),
    ensures
        response_body_rep(file, extension_of(fallback_candidate_spec(path))) == file
            + snippet_bytes(),
{
    lemma_fallback_extension(path);
}

} // verus!
