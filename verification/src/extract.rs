//! From a source's reply to an image address: reading the fetched document,
//! picking the element that carries the reference, and qualifying it.

use vstd::prelude::*;
use vstd::string::*;
use crate::source::Source;

verus! {

/// Why one source gave no image address.
#[derive(Clone, Copy, Debug, PartialEq, Eq, Structural)]
pub enum ExtractError {
    /// The transport failed, or the reply's status was not a success.
    Fetch,
    /// The reply could not be read as a document to query.
    Parse,
    /// The document holds no element with the source's marker.
    NotFound,
    /// The marked element lacks the attribute that holds the reference.
    AttributeMissing,
}

/// What came back from the one request made to a source.
#[derive(Clone, Debug)]
pub enum Reply {
    /// No reply arrived.
    TransportFailed,
    /// A reply arrived, with its status code and its body as text.
    Response { status: u16, body: String },
}

/// One element that the structural query selected.
#[derive(Clone, Debug)]
pub struct Candidate {
    /// Whether the element carries the source's marker class.
    pub marked: bool,
    /// The value of the source's image attribute on it, if it has one.
    pub value: Option<String>,
}

/// An optional string as an optional sequence of characters.
pub open spec fn text_of(value: Option<String>) -> Option<Seq<char>> {
    match value {
        Some(s) => Some(s@),
        None => None,
    }
}

/// The candidates as plain values, in the same order.
pub open spec fn candidate_views(candidates: Seq<Candidate>) -> Seq<(bool, Option<Seq<char>>)> {
    Seq::new(candidates.len(), |i: int| (candidates[i].marked, text_of(candidates[i].value)))
}

/// What `scraper` finds in `document` under `selector`: `None` where the
/// selector is not one, else for each element selected, in document order,
/// whether it has the class `class` (ASCII letters compared without case)
/// and the value of its attribute `attribute`.
pub uninterp spec fn selected_elements(
    document: Seq<char>,
    selector: Seq<char>,
    class: Seq<char>,
    attribute: Seq<char>,
) -> Option<Seq<(bool, Option<Seq<char>>)>>;

/// Parses `document` with `scraper::Html::parse_document` and `selector`
/// with `scraper::Selector::parse`, walks `Html::select`, and reads each
/// element with `Element::has_class` and `ElementRef::attr`.
///
/// Trusted: the outcome depends on the four texts alone, so it is named by
/// `selected_elements`; nothing more is claimed of it.
#[verifier::external_body]
fn scan_document(document: &str, selector: &str, class: &str, attribute: &str) -> (found:
    Option<Vec<Candidate>>)
    ensures
        match found {
            Some(c) => selected_elements(document@, selector@, class@, attribute@) == Some(
                candidate_views(c@),
            ),
            None => selected_elements(document@, selector@, class@, attribute@) is None,
        },
{
    let selector = scraper::Selector::parse(selector).ok()?;
    let html = scraper::Html::parse_document(document);
    let class = scraper::selector::CssLocalName::from(class);
    let sensitivity = scraper::CaseSensitivity::AsciiCaseInsensitive;
    Some(
        html.select(&selector).map(|element| Candidate {
            marked: scraper::Element::has_class(&element, &class, sensitivity),
            value: element.attr(attribute).map(String::from),
        }).collect(),
    )
}

/// Whether a status code reports success.
pub open spec fn is_success(status: u16) -> bool {
    200 <= status < 300
}

/// Whether an address names its scheme and so stands on its own.
pub open spec fn is_absolute(reference: Seq<char>) -> bool {
    "https://"@.is_prefix_of(reference) || "http://"@.is_prefix_of(reference)
}

/// The reference as an absolute address: kept where it is one already,
/// else placed under `origin`, with a slash between the two where it brings none.
pub open spec fn qualified(origin: Seq<char>, reference: Seq<char>) -> Seq<char> {
    if is_absolute(reference) {
        reference
    } else if "/"@.is_prefix_of(reference) {
        origin + reference
    } else {
        origin + "/"@ + reference
    }
}

/// The position of the first marked candidate at or after `from`.
pub open spec fn first_marked(candidates: Seq<(bool, Option<Seq<char>>)>, from: int) -> Option<int>
    decreases candidates.len() - from,
{
    if from < 0 || from >= candidates.len() {
        None
    } else if candidates[from].0 {
        Some(from)
    } else {
        first_marked(candidates, from + 1)
    }
}

/// The address that the selected elements give under `origin`: the qualified
/// reference of the first marked one.
pub open spec fn picked(candidates: Seq<(bool, Option<Seq<char>>)>, origin: Seq<char>) -> Result<
    Seq<char>,
    ExtractError,
> {
    match first_marked(candidates, 0) {
        None => Err(ExtractError::NotFound),
        Some(i) => match candidates[i].1 {
            None => Err(ExtractError::AttributeMissing),
            Some(reference) => Ok(qualified(origin, reference)),
        },
    }
}

/// What a source's query makes of a document.
pub open spec fn document_result(source: Source, document: Seq<char>) -> Result<
    Seq<char>,
    ExtractError,
> {
    match selected_elements(
        document,
        "div"@,
        source.spec_marker_class(),
        source.spec_image_attribute(),
    ) {
        None => Err(ExtractError::Parse),
        Some(candidates) => picked(candidates, source.spec_origin()),
    }
}

/// What a source's reply amounts to.
pub open spec fn reply_result(source: Source, reply: Reply) -> Result<Seq<char>, ExtractError> {
    match reply {
        Reply::TransportFailed => Err(ExtractError::Fetch),
        Reply::Response { status, body } => if is_success(status) {
            document_result(source, body@)
        } else {
            Err(ExtractError::Fetch)
        },
    }
}

/// An extraction's result with the address as a sequence of characters.
pub open spec fn result_view(result: Result<String, ExtractError>) -> Result<
    Seq<char>,
    ExtractError,
> {
    match result {
        Ok(url) => Ok(url@),
        Err(e) => Err(e),
    }
}

/// `first_marked` from the start finds a marked candidate with none marked
/// before it, and finds none only where none is marked.
pub proof fn lemma_first_marked(candidates: Seq<(bool, Option<Seq<char>>)>, from: int)
    requires
        0 <= from,
    ensures
        match first_marked(candidates, from) {
            Some(i) => from <= i < candidates.len() && candidates[i].0 && forall|j: int|
                from <= j < i ==> !candidates[j].0,
            None => forall|j: int| from <= j < candidates.len() ==> !candidates[j].0,
        },
    decreases candidates.len() - from,
{
    if from < candidates.len() && !candidates[from].0 {
        lemma_first_marked(candidates, from + 1);
    }
}

/// An address placed under an absolute origin is absolute.
pub proof fn lemma_qualified_is_absolute(origin: Seq<char>, reference: Seq<char>)
    requires
        is_absolute(origin),
    ensures
        is_absolute(qualified(origin, reference)),
{
    if !is_absolute(reference) {
        let rest = if "/"@.is_prefix_of(reference) {
            reference
        } else {
            "/"@ + reference
        };
        assert(qualified(origin, reference) =~= origin + rest);
        if "https://"@.is_prefix_of(origin) {
            lemma_prefix_of_concat("https://"@, origin, rest);
        } else {
            lemma_prefix_of_concat("http://"@, origin, rest);
        }
    }
}

/// A prefix of a text is a prefix of the text with more appended.
pub proof fn lemma_prefix_of_concat(prefix: Seq<char>, text: Seq<char>, rest: Seq<char>)
    requires
        prefix.is_prefix_of(text),
    ensures
        prefix.is_prefix_of(text + rest),
{
    assert(prefix =~= (text + rest).subrange(0, prefix.len() as int));
}

/// Every source's origin is an absolute address.
pub proof fn lemma_origin_is_absolute(source: Source)
    ensures
        is_absolute(source.spec_origin()),
{
    reveal_strlit("https://");
    reveal_strlit("https://www.gocomics.com");
    reveal_strlit("https://production.centralus.gocomics.com");
    reveal_strlit("https://picayune.uclick.com");
    assert("https://"@ =~= source.spec_origin().subrange(0, 8));
}

/// Whatever reference a document of a source carries, the address made of
/// it is absolute: a relative path never comes back bare.
pub proof fn lemma_result_is_absolute(source: Source, reply: Reply)
    ensures
        reply_result(source, reply) matches Ok(url) ==> is_absolute(url),
{
    lemma_origin_is_absolute(source);
    if let Ok(url) = reply_result(source, reply) {
        let body = reply->body;
        let candidates = selected_elements(
            body@,
            "div"@,
            source.spec_marker_class(),
            source.spec_image_attribute(),
        )->Some_0;
        let i = first_marked(candidates, 0)->Some_0;
        let reference = candidates[i].1->Some_0;
        lemma_qualified_is_absolute(source.spec_origin(), reference);
    }
}

/// Whether `text` begins with `prefix`.
pub fn starts_with(text: &str, prefix: &str) -> (yes: bool)
    ensures
        yes == prefix@.is_prefix_of(text@),
{
    let n = prefix.unicode_len();
    if n > text.unicode_len() {
        return false;
    }
    let mut i: usize = 0;
    while i < n
        invariant
            n == prefix@.len(),
            n <= text@.len(),
            i <= n,
            forall|j: int| 0 <= j < i ==> prefix@[j] == text@[j],
        decreases n - i,
    {
        if prefix.get_char(i) != text.get_char(i) {
            proof {
                assert(text@.subrange(0, n as int)[i as int] != prefix@[i as int]);
            }
            return false;
        }
        i += 1;
    }
    proof {
        assert(prefix@ =~= text@.subrange(0, n as int));
    }
    true
}

/// Makes an absolute address of a reference found at `source`.
pub fn qualify(source: Source, reference: &str) -> (url: String)
    ensures
        url@ == qualified(source.spec_origin(), reference@),
        is_absolute(url@),
{
    proof {
        lemma_origin_is_absolute(source);
        lemma_qualified_is_absolute(source.spec_origin(), reference@);
    }
    if starts_with(reference, "https://") || starts_with(reference, "http://") {
        String::from_str(reference)
    } else if starts_with(reference, "/") {
        let mut url = String::from_str(source.origin());
        url.append(reference);
        url
    } else {
        let mut url = String::from_str(source.origin());
        url.append("/");
        url.append(reference);
        url
    }
}

/// Picks the image address out of the elements selected from a document of
/// `source`: the reference of the first marked element, made absolute.
/// Fails with `NotFound` where no element is marked, and with
/// `AttributeMissing` where the first marked one has no reference.
pub fn pick_image(source: Source, candidates: &Vec<Candidate>) -> (result:
    Result<String, ExtractError>)
    ensures
        result_view(result) == picked(candidate_views(candidates@), source.spec_origin()),
        result matches Ok(url) ==> is_absolute(url@),
{
    let ghost views = candidate_views(candidates@);
    let mut i: usize = 0;
    while i < candidates.len()
        invariant
            i <= candidates.len(),
            views == candidate_views(candidates@),
            first_marked(views, 0) == first_marked(views, i as int),
        decreases candidates.len() - i,
    {
        if candidates[i].marked {
            return match &candidates[i].value {
                Some(reference) => Ok(qualify(source, reference.as_str())),
                None => Err(ExtractError::AttributeMissing),
            };
        }
        i += 1;
    }
    Err(ExtractError::NotFound)
}

/// Reads the image address out of a document fetched from `source`.
pub fn read_document(source: Source, document: &str) -> (result: Result<String, ExtractError>)
    ensures
        result_view(result) == document_result(source, document@),
        result matches Ok(url) ==> is_absolute(url@),
{
    match scan_document(document, "div", source.marker_class(), source.image_attribute()) {
        Some(candidates) => pick_image(source, &candidates),
        None => Err(ExtractError::Parse),
    }
}

/// Turns the reply of `source` into an image address or the reason why
/// there is none. A reply that did not arrive, or whose status is not a
/// success, is a `Fetch` failure whatever its body holds.
pub fn extract(source: Source, reply: &Reply) -> (result: Result<String, ExtractError>)
    ensures
        result_view(result) == reply_result(source, *reply),
        result matches Ok(url) ==> is_absolute(url@),
{
    match reply {
        Reply::TransportFailed => Err(ExtractError::Fetch),
        Reply::Response { status, body } => {
            if 200 <= *status && *status < 300 {
                read_document(source, body.as_str())
            } else {
                Err(ExtractError::Fetch)
            }
        },
    }
}

impl ExtractError {
    /// The reason in words.
    pub fn message(&self) -> (text: &'static str)
        ensures
            text@ == self.spec_message(),
    {
        match self {
            ExtractError::Fetch => "the comic could not be fetched",
            ExtractError::Parse => "the reply could not be read as a document",
            ExtractError::NotFound => "the document holds no comic",
            ExtractError::AttributeMissing => "the comic carries no image reference",
        }
    }

    /// The reason in words.
    pub open spec fn spec_message(&self) -> Seq<char> {
        match self {
            ExtractError::Fetch => "the comic could not be fetched"@,
            ExtractError::Parse => "the reply could not be read as a document"@,
            ExtractError::NotFound => "the document holds no comic"@,
            ExtractError::AttributeMissing => "the comic carries no image reference"@,
        }
    }
}

} // verus!
