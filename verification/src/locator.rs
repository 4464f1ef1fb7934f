//! The source locator: the address of the video, checked before anything is
//! fetched.

use crate::error::{PipelineError, PipelineErrorView};
use vstd::prelude::*;

verus! {

/// What `url::Url::parse` makes of `text`: the URL in its serialized form,
/// or the message of the error with which `text` is refused.
pub uninterp spec fn parsed_url(text: Seq<char>) -> Result<Seq<char>, Seq<char>>;

/// Calls `url::Url::parse`. The contract claims that the outcome depends on
/// `text` alone: it is the serialized URL, or the text of the parse error,
/// that `parsed_url` names.
#[verifier::external_body]
fn parse_url(text: &str) -> (r: Result<String, String>)
    ensures
        match r {
            Ok(url) => parsed_url(text@) == Ok::<Seq<char>, Seq<char>>(url@),
            Err(error) => parsed_url(text@) == Err::<Seq<char>, Seq<char>>(error@),
        },
{
    match url::Url::parse(text) {
        Ok(url) => Ok(String::from(url)),
        Err(error) => Err(error.to_string()),
    }
}

/// The failure with which a locator is refused.
pub open spec fn invalid_locator(error: Seq<char>) -> PipelineErrorView {
    PipelineErrorView::InvalidInput("Invalid URL: "@ + error)
}

/// The address of a video: an absolute URL. Its view is the URL in its
/// serialized form.
#[derive(Debug)]
pub struct SourceLocator {
    given: String,
    url: String,
}

impl View for SourceLocator {
    type V = Seq<char>;

    closed spec fn view(&self) -> Seq<char> {
        self.url@
    }
}

impl SourceLocator {
    #[verifier::type_invariant]
    spec fn is_parsed(self) -> bool {
        parsed_url(self.given@) == Ok::<Seq<char>, Seq<char>>(self.url@)
    }

    /// The text from which the locator was read.
    pub closed spec fn source(self) -> Seq<char> {
        self.given@
    }

    /// Reads a locator. A text that is no absolute URL is refused as
    /// invalid input, with the reason.
    pub fn parse(text: &str) -> (r: Result<SourceLocator, PipelineError>)
        ensures
            match r {
                Ok(locator) => parsed_url(text@) == Ok::<Seq<char>, Seq<char>>(locator@)
                    && locator.source() == text@,
                Err(error) => parsed_url(text@) is Err && error@ == invalid_locator(
                    parsed_url(text@)->Err_0,
                ),
            },
    {
        match parse_url(text) {
            Ok(url) => Ok(SourceLocator { given: String::from_str(text), url }),
            Err(error) => Err(
                PipelineError::InvalidInput(
                    String::from_str("Invalid URL: ").concat(error.as_str()),
                ),
            ),
        }
    }

    /// The URL, serialized.
    pub fn as_str(&self) -> (r: &str)
        ensures
            r@ == self@,
            parsed_url(self.source()) == Ok::<Seq<char>, Seq<char>>(r@),
    {
        proof {
            use_type_invariant(self);
        }
        self.url.as_str()
    }
}

} // verus!
