//! Response assembler: resolves a MIME type from the file name's extension
//! and packages content and type into an HTTP response.
//!
//! The extension is what follows the last `'.'` of the file name, defaulting
//! to the literal extension `html` when the name holds no dot.  The MIME
//! table itself belongs to an outside collaborator; its answer for a given
//! extension is a fixed value that the contracts name `mime_of`.

use crate::address::{last_dot, lemma_last_dot, rfind_dot};
use vstd::prelude::*;
use vstd::string::StrSliceExecFns;
use vstd::string::StringSliceAdditionalSpecFns;

verus! {

/// The MIME type the collaborator's table resolves an extension to.
pub uninterp spec fn mime_of(ext: Seq<char>) -> Seq<char>;

/// Relies on `mime_guess::from_ext` and `MimeGuess::first_or_octet_stream`:
/// a lookup in a static extension table whose result depends on the
/// extension alone, falling back to `application/octet-stream` for unknown
/// extensions.
#[verifier::external_body]
pub(crate) fn mime_type_for(ext: &str) -> (r: String)
    ensures
        r@ == mime_of(ext@),
{
    mime_guess::from_ext(ext).first_or_octet_stream().to_string()
}

/// The extension of a file name: what follows the last `'.'`, or `"html"`
/// when the name holds no dot.
pub open spec fn spec_extension_of(name: Seq<char>) -> Seq<char> {
    let ld = last_dot(name);
    if ld >= 0 {
        name.subrange(ld + 1, name.len() as int)
    } else {
        "html"@
    }
}

/// Extracts a file name's extension, defaulting to `"html"`.
pub fn extension_of(file_name: &str) -> (r: String)
    ensures
        r@ == spec_extension_of(file_name@),
{
    let n = file_name.unicode_len();
    proof {
        assert(file_name@.take(n as int) =~= file_name@);
        lemma_last_dot(file_name@);
    }
    match rfind_dot(file_name, n) {
        None => "html".to_owned(),
        Some(ld) => file_name.substring_char(ld + 1, n).to_owned(),
    }
}

/// An assembled HTTP response: a status code, the Content-Type header's
/// value, and the body bytes.
pub struct HttpResponse {
    pub status: u16,
    pub content_type: String,
    pub body: Vec<u8>,
}

/// The mathematical image of an `HttpResponse`.
pub struct RespModel {
    pub status: int,
    pub content_type: Seq<char>,
    pub body: Seq<u8>,
}

impl View for HttpResponse {
    type V = RespModel;

    open spec fn view(&self) -> RespModel {
        RespModel {
            status: self.status as int,
            content_type: self.content_type@,
            body: self.body@,
        }
    }
}

/// A plain-text response carrying a short human-readable reason.
pub open spec fn spec_plain(status: int, msg: Seq<char>) -> RespModel {
    RespModel {
        status,
        content_type: "text/plain"@,
        body: vstd::utf8::encode_utf8(msg),
    }
}

/// Builds a plain-text response with the given status and reason.
pub fn plain_response(status: u16, msg: String) -> (r: HttpResponse)
    ensures
        r@ == spec_plain(status as int, msg@),
{
    let body = msg.as_str().as_bytes_vec();
    HttpResponse { status, content_type: "text/plain".to_owned(), body }
}

/// Packages located file content as a success response, with the MIME type
/// resolved from the file name's extension.
pub fn assemble(file_name: &str, content: Vec<u8>) -> (r: HttpResponse)
    ensures
        r@.status == 200,
        r@.content_type == mime_of(spec_extension_of(file_name@)),
        r@.body == content@,
{
    let ext = extension_of(file_name);
    let mtype = mime_type_for(ext.as_str());
    HttpResponse { status: 200, content_type: mtype, body: content }
}

} // verus!
