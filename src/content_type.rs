use vstd::prelude::*;

verus! {

/// Media type of a response body, as far as decoding is concerned.
#[derive(Clone, Debug)]
pub enum ContentType {
    Json,
    Pdf,
    Unsupported(String),
    Absent,
}

/// `prefix` is a leading part of `text`.
pub open spec fn is_prefix(prefix: Seq<char>, text: Seq<char>) -> bool {
    prefix.len() <= text.len() && text.subrange(0, prefix.len() as int) == prefix
}

/// Prefix of a JSON `Content-Type` header value.
pub open spec fn json_media_type() -> Seq<char> {
    "application/json"@
}

/// Prefix of a PDF `Content-Type` header value.
pub open spec fn pdf_media_type() -> Seq<char> {
    "application/pdf"@
}

/// `r` is the classification of the header value `header`.
pub open spec fn classifies(header: Option<Seq<char>>, r: ContentType) -> bool {
    match header {
        None => r is Absent,
        Some(t) => if is_prefix(json_media_type(), t) {
            r is Json
        } else if is_prefix(pdf_media_type(), t) {
            r is Pdf
        } else {
            r matches ContentType::Unsupported(s) && s@ == t
        },
    }
}

/// Relies on `str::starts_with`: true exactly when `prefix` begins `text`.
#[verifier::external_body]
fn starts_with(text: &str, prefix: &str) -> (r: bool)
    ensures
        r == is_prefix(prefix@, text@),
{
    text.starts_with(prefix)
}

impl ContentType {
    /// Classifies a `Content-Type` header value; `None` means the header was
    /// missing or not readable as text.
    pub fn classify(header: Option<&str>) -> (r: ContentType)
        ensures
            classifies(
                match header {
                    Some(t) => Some(t@),
                    None => None,
                },
                r,
            ),
    {
        match header {
            Some(text) => {
                if starts_with(text, "application/json") {
                    ContentType::Json
                } else if starts_with(text, "application/pdf") {
                    ContentType::Pdf
                } else {
                    ContentType::Unsupported(text.to_owned())
                }
            },
            None => ContentType::Absent,
        }
    }
}

impl<'a> From<Option<&'a str>> for ContentType {
    fn from(value: Option<&'a str>) -> ContentType {
        ContentType::classify(value)
    }
}

/// The conversion is `ContentType::classify`, whose contract states the result;
/// an unsupported value carries a fresh `String`, which no spec function builds.
impl<'a> vstd::std_specs::convert::FromSpecImpl<Option<&'a str>> for ContentType {
    open spec fn obeys_from_spec() -> bool {
        false
    }

    open spec fn from_spec(v: Option<&'a str>) -> ContentType {
        arbitrary()
    }
}

} // verus!
