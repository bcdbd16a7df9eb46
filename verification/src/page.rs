//! What is handed to the page template, and what is sent where the template
//! cannot be rendered.

use vstd::prelude::*;
use crate::gemtext::valid_gemtext;
use crate::html::{gemtext_to_html, translation};
use crate::resolve::{OutcomeModel, ResolutionOutcome};
use crate::text::text_of;
use crate::url::{gemini_url_for, gemini_url_text};

verus! {

/// The three texts that the page template shows, each of them optional.
#[derive(Clone, Debug, PartialEq, Eq)]
pub struct Page {
    /// The message of the error that ended the resolution.
    pub error: Option<String>,
    /// The Gemini address that was asked for.
    pub gemini_url: Option<String>,
    /// The document, as HTML.
    pub content: Option<String>,
}

/// A `Page` as a mathematical value.
pub struct PageModel {
    pub error: Option<Seq<char>>,
    pub gemini_url: Option<Seq<char>>,
    pub content: Option<Seq<char>>,
}

impl View for Page {
    type V = PageModel;

    open spec fn view(&self) -> PageModel {
        PageModel {
            error: text_of(self.error),
            gemini_url: text_of(self.gemini_url),
            content: text_of(self.content),
        }
    }
}

/// The page for a request that asked for `request_path` and whose resolution
/// ended with `outcome`: the address that the path stands for, the error if
/// there is one, and the document, translated, if there is one.
pub open spec fn page_for(request_path: Seq<char>, outcome: OutcomeModel) -> PageModel {
    PageModel {
        error: outcome.error(),
        gemini_url: Some(gemini_url_text(request_path)),
        content: match outcome.content() {
            Some(text) => Some(translation(text, request_path)),
            None => None,
        },
    }
}

/// What is sent where the template cannot be rendered: a paragraph that
/// holds the message of the renderer.
pub open spec fn render_failure_text(message: Seq<char>) -> Seq<char> {
    "<p>Error rendering template: "@ + message + "</p>"@
}

/// The body of the response: the rendered page, or the paragraph that
/// stands in for it.
pub open spec fn response_text(rendered: Result<String, String>) -> Seq<char> {
    match rendered {
        Ok(html) => html@,
        Err(message) => render_failure_text(message@),
    }
}

impl Page {
    /// The page that shows nothing: no error, no address, no document.
    pub fn blank() -> (page: Page)
        ensures
            page@ == (PageModel { error: None, gemini_url: None, content: None }),
    {
        Page { error: None, gemini_url: None, content: None }
    }

    /// The page for a request that asked for `request_path` and whose
    /// resolution ended with `outcome`.
    pub fn for_outcome(request_path: &str, outcome: ResolutionOutcome) -> (page: Page)
        requires
            outcome@ matches OutcomeModel::Content(text) ==> valid_gemtext(text),
        ensures
            page@ == page_for(request_path@, outcome@),
    {
        let gemini_url = Some(gemini_url_for(request_path));
        match outcome {
            ResolutionOutcome::Content(text) => Page {
                error: None,
                gemini_url,
                content: Some(gemtext_to_html(text.as_str(), request_path)),
            },
            ResolutionOutcome::Failed(reason) => Page {
                error: Some(reason),
                gemini_url,
                content: None,
            },
            ResolutionOutcome::Exhausted => Page { error: None, gemini_url, content: None },
        }
    }
}

/// The body of the response, given what the renderer made of the page: its
/// output, or the message of its failure.
pub fn response_body(rendered: Result<String, String>) -> (out: String)
    ensures
        out@ == response_text(rendered),
{
    match rendered {
        Ok(html) => html,
        Err(message) => {
            let mut out = "<p>Error rendering template: ".to_owned();
            out.append(message.as_str());
            out.append("</p>");
            out
        },
    }
}

} // verus!
