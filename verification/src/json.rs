use vstd::prelude::*;
use crate::http::request::FromRequest;
use crate::http::request::Request;
use crate::http::request::RequestView;
use crate::http::response::plain;
use crate::http::response::IntoResponse;
use crate::http::response::Rejection;
use crate::http::response::Response;
use crate::http::response::ResponseView;
use crate::http::status::StatusCode;
use crate::http::status::IM_A_TEAPOT;
use crate::http::status::OK;

verus! {

/// A JSON document held by `serde_json`. Nothing of its contents is visible
/// to the verifier.
#[verifier::external_type_specification]
#[verifier::external_body]
pub struct ExValue(serde_json::Value);

/// The error of `serde_json`.
#[verifier::external_type_specification]
#[verifier::external_body]
pub struct ExError(serde_json::Error);

/// What `serde_json::from_str` reads `text` as: the document, or nothing
/// where the text is not one JSON document.
pub uninterp spec fn document_of(text: Seq<char>) -> Option<serde_json::Value>;

/// Whether `text` is one JSON document.
pub open spec fn is_json_document(text: Seq<char>) -> bool {
    document_of(text) is Some
}

/// Calls `serde_json::from_str` for a `serde_json::Value`. The call reads no
/// state but the text, so what it returns is a function of the text: that
/// function is `document_of`. Nothing is claimed of the error.
#[verifier::external_body]
fn parse_document(text: &str) -> (r: Result<serde_json::Value, serde_json::Error>)
    ensures
        r is Ok <==> document_of(text@) is Some,
        r matches Ok(document) ==> document_of(text@) == Some(document),
{
    serde_json::from_str::<serde_json::Value>(text)
}

/// What a document holds: the JSON text that `serde_json::to_string` writes
/// for it.
pub uninterp spec fn document_text(document: serde_json::Value) -> Seq<char>;

/// Calls `serde_json::to_string` on a `serde_json::Value`. The call reads no
/// state but the document, so the text that it writes is a function of the
/// document: that function is `document_text`. The call succeeds: a
/// document is written as units, booleans, numbers, strings, sequences and
/// maps with strings for keys, into a vector in memory, and none of these
/// steps has an error.
#[verifier::external_body]
fn render_document(document: &serde_json::Value) -> (r: Result<String, serde_json::Error>)
    ensures
        r is Ok,
        r matches Ok(text) ==> text@ == document_text(*document),
{
    serde_json::to_string(document)
}

/// The message of a `serde_json::Error`, as its `Display` writes it. Nothing
/// is claimed of the text.
#[verifier::external_body]
fn error_message(error: &serde_json::Error) -> (text: String) {
    error.to_string()
}

/// A value that is read from JSON text.
pub trait FromJson: Sized {
    /// Whether `outcome` is what decoding `text` gives. Where an impl says
    /// nothing, nothing is known of the outcome.
    open spec fn decoded(text: Seq<char>, outcome: Result<Self, Rejection>) -> bool {
        true
    }

    fn from_json(text: &str) -> (outcome: Result<Self, Rejection>)
        ensures
            Self::decoded(text@, outcome),
    ;
}

/// A value that is written as JSON text. The error, if there is one, is a
/// message.
pub trait ToJson {
    /// Whether `outcome` is what encoding `self` gives. Where an impl says
    /// nothing, nothing is known of the outcome.
    open spec fn encoded(&self, outcome: Result<String, String>) -> bool {
        true
    }

    fn to_json(&self) -> (outcome: Result<String, String>)
        ensures
            self.encoded(outcome),
    ;
}

/// Decoding succeeds exactly on the texts that are JSON documents, and
/// gives the document that the text is. Of the rejection nothing is known.
impl FromJson for serde_json::Value {
    open spec fn decoded(text: Seq<char>, outcome: Result<Self, Rejection>) -> bool {
        &&& outcome is Ok <==> is_json_document(text)
        &&& outcome matches Ok(document) ==> document_of(text) == Some(document)
    }

    fn from_json(text: &str) -> (outcome: Result<Self, Rejection>) {
        match parse_document(text) {
            Ok(document) => Ok(document),
            Err(error) => Err(Rejection { reason: error_message(&error) }),
        }
    }
}

/// Encoding a document succeeds and gives the text that the document holds.
impl ToJson for serde_json::Value {
    open spec fn encoded(&self, outcome: Result<String, String>) -> bool {
        outcome matches Ok(text) && text@ == document_text(*self)
    }

    fn to_json(&self) -> (outcome: Result<String, String>) {
        match render_document(self) {
            Ok(text) => Ok(text),
            Err(error) => Err(error_message(&error)),
        }
    }
}

/// A value that travels as JSON: extracted from the body of a request by
/// decoding it, turned into a response by encoding it.
#[derive(Debug)]
pub struct Json<T>(pub T);

/// The outcome of an extraction of `Json<T>` as an outcome for `T`.
pub open spec fn unwrapped<T>(outcome: Result<Json<T>, Rejection>) -> Result<T, Rejection> {
    match outcome {
        Ok(json) => Ok(json.0),
        Err(rejection) => Err(rejection),
    }
}

impl<T> FromRequest for Json<T> where T: FromJson {
    open spec fn extracted_from(request: RequestView, outcome: Result<Self, Rejection>) -> bool {
        T::decoded(request.body, unwrapped(outcome))
    }

    fn from_request(request: Request) -> (outcome: Result<Self, Rejection>) {
        let body = request.into_body();
        match T::from_json(body.as_str()) {
            Ok(value) => Ok(Json(value)),
            Err(rejection) => Err(rejection),
        }
    }
}

/// The outcome of an encoding as a mathematical value.
pub open spec fn encoding_view(outcome: Result<String, String>) -> Result<Seq<char>, Seq<char>> {
    match outcome {
        Ok(text) => Ok(text@),
        Err(message) => Err(message@),
    }
}

/// The response for the outcome of an encoding: the text as the body of a
/// 200 response that declares its content type, or the message as the body
/// of a 418 response.
pub open spec fn json_response(encoding: Result<Seq<char>, Seq<char>>) -> ResponseView {
    match encoding {
        Ok(text) => ResponseView {
            status: OK,
            headers: seq![("Content-Type"@, "application/json"@)],
            body: text,
        },
        Err(message) => plain(IM_A_TEAPOT, message),
    }
}

/// Builds the response for the outcome of an encoding.
pub fn respond_json(encoding: Result<String, String>) -> (response: Response)
    ensures
        response@ == json_response(encoding_view(encoding)),
{
    match encoding {
        Ok(text) => {
            let response = Response::new(StatusCode::ok(), text).with_header(
                "Content-Type",
                "application/json",
            );
            assert(response@.headers =~= seq![("Content-Type"@, "application/json"@)]);
            response
        },
        Err(message) => Response::new(StatusCode::im_a_teapot(), message),
    }
}

impl<T> IntoResponse for Json<T> where T: ToJson {
    open spec fn converts_to(self, response: ResponseView) -> bool {
        exists|encoding: Result<String, String>| #[trigger]
            self.0.encoded(encoding) && response == json_response(encoding_view(encoding))
    }

    fn into_response(self) -> (response: Response) {
        let encoding = self.0.to_json();
        respond_json(encoding)
    }
}

} // verus!
