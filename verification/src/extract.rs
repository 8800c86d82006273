//! Markup extraction: turning a fetched page into structured values.
//!
//! The structural queries against parsed markup are carried out by the
//! `kuchikiki` crate behind trusted wrappers; everything that decides,
//! validates and assembles text from the query results is verified here.

use kuchikiki::traits::TendrilSink;
use vstd::prelude::*;

verus! {

/// What one matched headline block carries, as plain values: the text of the
/// element's first child (absent when that child is missing or is not text)
/// and the value of the link attribute on its enclosing element (absent when
/// there is no enclosing element or no such attribute).
pub struct HeadlineBlock {
    pub text: Option<String>,
    pub href: Option<String>,
}

/// Mathematical image of a `HeadlineBlock`.
pub struct BlockView {
    pub text: Option<Seq<char>>,
    pub href: Option<Seq<char>>,
}

impl View for HeadlineBlock {
    type V = BlockView;

    open spec fn view(&self) -> BlockView {
        BlockView { text: self.text.deep_view(), href: self.href.deep_view() }
    }
}

impl DeepView for HeadlineBlock {
    type V = BlockView;

    open spec fn deep_view(&self) -> BlockView {
        self.view()
    }
}

/// The homepage's headline pattern matched nothing, or one of its matches
/// lacked the expected text child or enclosing link attribute.
#[derive(Clone, Copy, Debug, PartialEq, Eq, Structural)]
pub struct ExtractionError;

/// Why a single article page yielded no text.
#[derive(Clone, Copy, Debug, PartialEq, Eq, Structural)]
pub enum ArticleError {
    /// No element matched the article-body pattern.
    NotFound,
    /// A paragraph element inside the article body had no text child.
    MalformedParagraph,
}

impl ArticleError {
    /// The placeholder text shown in place of an article body when the
    /// extraction of that article failed.
    pub fn message(&self) -> (r: String)
        ensures
            *self is NotFound ==> r@ == "No article body was found on this page."@,
            *self is MalformedParagraph ==> r@
                == "A paragraph on this page could not be read."@,
    {
        match self {
            ArticleError::NotFound => "No article body was found on this page.".to_owned(),
            ArticleError::MalformedParagraph => "A paragraph on this page could not be read."
                .to_owned(),
        }
    }
}

/// The text that `str::trim` leaves of `s`: `s` without leading and trailing
/// whitespace.
pub uninterp spec fn trim_of(s: Seq<char>) -> Seq<char>;

/// The headline blocks that parsing `html` and matching `selector` yield, in
/// document order, each paired with the `attr` attribute of its enclosing
/// element.
pub uninterp spec fn headline_blocks_of(
    html: Seq<char>,
    selector: Seq<char>,
    attr: Seq<char>,
) -> Seq<BlockView>;

/// What parsing `html` and looking for an article body yields: `None` when no
/// element matches `body_selector`, otherwise the first text child of every
/// element matching `paragraph_selector` inside the first match, in document
/// order.
pub uninterp spec fn article_paragraphs_of(
    html: Seq<char>,
    body_selector: Seq<char>,
    paragraph_selector: Seq<char>,
) -> Option<Seq<Option<Seq<char>>>>;

/// Relies on `str::trim`: the result is the input without leading and
/// trailing whitespace, a function of the characters alone.
#[verifier::external_body]
pub(crate) fn trim_ws(s: &str) -> (r: &str)
    ensures
        r@ == trim_of(s@),
{
    s.trim()
}

/// Relies on kuchikiki: `parse_html().one` parses the markup, and
/// `NodeRef::select` walks every element matching `selector` in document
/// order; for each match, `first_child` and `as_text` read its text child,
/// and `parent`, `as_element` and `Attributes::get` read attribute `attr` on
/// its enclosing element. Parsing and selection are functions of the markup
/// and the query alone, named by `headline_blocks_of`.
#[verifier::external_body]
pub(crate) fn select_blocks(html: &str, selector: &str, attr: &str) -> (r: Vec<HeadlineBlock>)
    ensures
        r.deep_view() == headline_blocks_of(html@, selector@, attr@),
{
    let document = kuchikiki::parse_html().one(html);
    let mut out = Vec::new();
    if let Ok(found) = document.select(selector) {
        for m in found {
            let node = m.as_node();
            let text = node.first_child().and_then(|c| c.as_text().map(|t| t.borrow().to_string()));
            let href = node.parent().and_then(|p| {
                p.as_element().and_then(|e| e.attributes.borrow().get(attr).map(|a| a.to_string()))
            });
            out.push(HeadlineBlock { text, href });
        }
    }
    out
}

/// Relies on kuchikiki: `parse_html().one` parses the markup,
/// `NodeRef::select_first` finds the first element matching `body_selector`,
/// and `NodeRef::select` walks its descendants matching `paragraph_selector`
/// in document order; `first_child` and `as_text` read each paragraph's text
/// child. Parsing and selection are functions of the markup and the queries
/// alone, named by `article_paragraphs_of`.
#[verifier::external_body]
pub(crate) fn select_paragraph_texts(
    html: &str,
    body_selector: &str,
    paragraph_selector: &str,
) -> (r: Option<Vec<Option<String>>>)
    ensures
        r.deep_view() == article_paragraphs_of(html@, body_selector@, paragraph_selector@),
{
    let document = kuchikiki::parse_html().one(html);
    let body = match document.select_first(body_selector) {
        Ok(b) => b,
        Err(()) => return None,
    };
    let paragraphs = match body.as_node().select(paragraph_selector) {
        Ok(p) => p,
        Err(()) => return None,
    };
    let mut out = Vec::new();
    for p in paragraphs {
        out.push(p.as_node().first_child().and_then(|c| c.as_text().map(|t| t.borrow().to_string())));
    }
    Some(out)
}

/// The structural pattern that identifies headline blocks on the homepage.
pub open spec fn story_selector() -> Seq<char> {
    ".top-stories .omnicard__headline"@
}

/// The attribute on a headline's enclosing anchor that carries the link.
pub open spec fn link_attribute() -> Seq<char> {
    "href"@
}

/// The structural pattern that identifies the article body.
pub open spec fn body_selector() -> Seq<char> {
    ".article-body"@
}

/// The structural pattern that identifies paragraphs inside the body.
pub open spec fn paragraph_selector() -> Seq<char> {
    "p"@
}

/// Every paragraph carries a text child.
pub open spec fn paragraphs_wf(paragraphs: Seq<Option<Seq<char>>>) -> bool {
    forall|i: int| 0 <= i < paragraphs.len() ==> paragraphs[i] is Some
}

/// The paragraphs, each trimmed, joined with a newline separator, in order.
/// Repeated paragraphs are kept: nothing is deduplicated.
pub open spec fn joined_text(paragraphs: Seq<Option<Seq<char>>>) -> Seq<char>
    decreases paragraphs.len(),
{
    if paragraphs.len() == 0 {
        Seq::empty()
    } else if paragraphs.len() == 1 {
        trim_of(paragraphs[0]->0)
    } else {
        joined_text(paragraphs.drop_last()) + "\n"@ + trim_of(paragraphs.last()->0)
    }
}

/// What article extraction returns for a given query outcome: `NotFound` when
/// no body matched, `MalformedParagraph` when some paragraph has no text
/// child, and otherwise the trimmed paragraphs joined with newlines.
pub open spec fn article_result(
    paragraphs: Option<Seq<Option<Seq<char>>>>,
) -> Result<Seq<char>, ArticleError> {
    match paragraphs {
        Option::None => Result::Err(ArticleError::NotFound),
        Option::Some(texts) => if paragraphs_wf(texts) {
            Result::Ok(joined_text(texts))
        } else {
            Result::Err(ArticleError::MalformedParagraph)
        },
    }
}

/// Mathematical image of an article extraction outcome.
pub open spec fn text_result_view(r: Result<String, ArticleError>) -> Result<
    Seq<char>,
    ArticleError,
> {
    match r {
        Result::Ok(s) => Result::Ok(s@),
        Result::Err(e) => Result::Err(e),
    }
}

/// Assembles the article text from the outcome of the body query: exactly
/// `article_result` of its argument.
pub fn extract_article_text_from(paragraphs: Option<Vec<Option<String>>>) -> (r: Result<
    String,
    ArticleError,
>)
    ensures
        text_result_view(r) == article_result(paragraphs.deep_view()),
{
    match &paragraphs {
        Option::None => Result::Err(ArticleError::NotFound),
        Option::Some(texts) => {
            let ghost all = texts.deep_view();
            let mut out = String::new();
            let mut i: usize = 0;
            while i < texts.len()
                invariant
                    i <= texts.len(),
                    all == texts.deep_view(),
                    paragraphs.deep_view() == Option::Some(all),
                    paragraphs_wf(all.take(i as int)),
                    out@ == joined_text(all.take(i as int)),
                decreases texts.len() - i,
            {
                match &texts[i] {
                    Option::None => {
                        proof {
                            assert(all[i as int] is None);
                            assert(!paragraphs_wf(all));
                        }
                        return Result::Err(ArticleError::MalformedParagraph);
                    },
                    Option::Some(t) => {
                        if i > 0 {
                            out.append("\n");
                        }
                        let piece = trim_ws(t.as_str());
                        out.append(piece);
                        proof {
                            assert(all.take(i + 1).drop_last() =~= all.take(i as int));
                            assert(all.take(i + 1).last() == all[i as int]);
                            assert(all.take(i + 1)[0] == all[0]);
                        }
                    },
                }
                i += 1;
            }
            proof {
                assert(all.take(texts.len() as int) =~= all);
            }
            Result::Ok(out)
        },
    }
}

/// Extracts the cleaned text of one article page: the first text child of
/// every paragraph inside the first article-body match, trimmed and joined
/// with newlines; fails with `NotFound` when no body matches and with
/// `MalformedParagraph` when a paragraph has no text child.
pub fn extract_article_text(html: &str) -> (r: Result<String, ArticleError>)
    ensures
        text_result_view(r) == article_result(
            article_paragraphs_of(html@, body_selector(), paragraph_selector()),
        ),
{
    let paragraphs = select_paragraph_texts(html, ".article-body", "p");
    extract_article_text_from(paragraphs)
}

} // verus!
