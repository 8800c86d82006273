//! One discovered story: its headline, its absolute link, and its lazily
//! filled, fetch-once content cache.

use crate::extract::ArticleError;
use crate::extract::article_paragraphs_of;
use crate::extract::article_result;
use crate::extract::body_selector;
use crate::extract::extract_article_text;
use crate::extract::paragraph_selector;
use crate::extract::text_result_view;
use vstd::prelude::*;
use vstd::string::StringExecFns;

verus! {

/// The state of a story's content cache: never asked for, successfully
/// extracted (and from then on fixed), or asked for and failed — a later
/// attempt starts over, so a failure is never cached as an answer.
pub enum Content {
    Unfetched,
    Fetched(String),
    FetchFailed,
}

/// Mathematical image of a content cache.
pub enum ContentView {
    Unfetched,
    Fetched(Seq<char>),
    FetchFailed,
}

/// One story extracted from the homepage.
pub struct Story {
    pub headline: String,
    pub link: String,
    pub content: Content,
}

/// Mathematical image of a `Story`.
pub struct StoryView {
    pub headline: Seq<char>,
    pub link: Seq<char>,
    pub content: ContentView,
}

impl View for Story {
    type V = StoryView;

    open spec fn view(&self) -> StoryView {
        StoryView {
            headline: self.headline@,
            link: self.link@,
            content: match self.content {
                Content::Unfetched => ContentView::Unfetched,
                Content::Fetched(text) => ContentView::Fetched(text@),
                Content::FetchFailed => ContentView::FetchFailed,
            },
        }
    }
}

impl DeepView for Story {
    type V = StoryView;

    open spec fn deep_view(&self) -> StoryView {
        self.view()
    }
}

/// The site base that every captured relative path is prefixed with.
pub open spec fn site_base() -> Seq<char> {
    "https://www.oxfordmail.co.uk"@
}

/// The reference form of a story: `[headline](link)`.
pub open spec fn markdown_of(headline: Seq<char>, link: Seq<char>) -> Seq<char> {
    "["@ + headline + "]("@ + link + ")"@
}

/// What extracting one fetched article page yields.
pub open spec fn page_text_result(page: Seq<char>) -> Result<Seq<char>, ArticleError> {
    article_result(article_paragraphs_of(page, body_selector(), paragraph_selector()))
}

/// The cache after one `get_content` step on `page`: a cached text is kept
/// unchanged; otherwise a successful extraction is cached and a failed one
/// leaves the cache without a text, so that the next step starts over.
pub open spec fn content_after(cache: ContentView, page: Seq<char>) -> ContentView {
    if cache is Fetched {
        cache
    } else {
        match page_text_result(page) {
            Result::Ok(text) => ContentView::Fetched(text),
            Result::Err(_) => ContentView::FetchFailed,
        }
    }
}

/// What one `get_content` step on `page` returns: the cached text when there
/// is one, and otherwise the outcome of extracting `page`.
pub open spec fn content_result(cache: ContentView, page: Seq<char>) -> Result<
    Seq<char>,
    ArticleError,
> {
    if cache is Fetched {
        Result::Ok(cache->0)
    } else {
        page_text_result(page)
    }
}

impl Story {
    /// Builds a story from a headline and the relative path captured from the
    /// homepage; the link becomes absolute and is never mutated afterwards,
    /// and the content starts out unfetched.
    pub fn new(headline: String, link: &str) -> (story: Story)
        ensures
            story@.headline == headline@,
            story@.link == site_base() + link@,
            story@.content is Unfetched,
    {
        let full = "https://www.oxfordmail.co.uk".to_owned().concat(link);
        Story { headline, link: full, content: Content::Unfetched }
    }

    /// The story as a markdown reference: `[headline](link)`.
    pub fn markdown(&self) -> (r: String)
        ensures
            r@ == markdown_of(self@.headline, self@.link),
    {
        let r = "[".to_owned().concat(self.headline.as_str()).concat("](").concat(
            self.link.as_str(),
        ).concat(")");
        proof {
            assert(r@ =~= markdown_of(self@.headline, self@.link));
        }
        r
    }

    /// Whether showing this story's article requires a fetch first: true
    /// exactly when no content is cached yet.
    pub fn needs_fetch(&self) -> (r: bool)
        ensures
            r == !(self@.content is Fetched),
    {
        match &self.content {
            Content::Fetched(_) => false,
            _ => true,
        }
    }

    /// Extracts the article text from one fetched copy of this story's page;
    /// pure with respect to the story itself.
    pub fn download_content(&self, page_html: &str) -> (r: Result<String, ArticleError>)
        ensures
            text_result_view(r) == page_text_result(page_html@),
    {
        extract_article_text(page_html)
    }

    /// Returns this story's article text, filling the cache at most once: a
    /// cached text is returned as it is and `page_html` is ignored; otherwise
    /// the text is extracted from `page_html` and cached on success, while a
    /// failure is returned and leaves no cached text behind.
    pub fn get_content(&mut self, page_html: &str) -> (r: Result<String, ArticleError>)
        ensures
            final(self)@.headline == old(self)@.headline,
            final(self)@.link == old(self)@.link,
            final(self)@.content == content_after(old(self)@.content, page_html@),
            text_result_view(r) == content_result(old(self)@.content, page_html@),
    {
        if let Content::Fetched(text) = &self.content {
            Result::Ok(text.clone())
        } else {
            match self.download_content(page_html) {
                Result::Ok(text) => {
                    self.content = Content::Fetched(text.clone());
                    Result::Ok(text)
                },
                Result::Err(e) => {
                    self.content = Content::FetchFailed;
                    Result::Err(e)
                },
            }
        }
    }
}

/// Fetch-once law: once a `get_content` step has succeeded, the text is
/// cached, and every later step returns that same text and leaves the story
/// unchanged — whatever page the later step is offered.
pub proof fn lemma_fetch_once(cache: ContentView, first_page: Seq<char>, later_page: Seq<char>)
    requires
        content_result(cache, first_page) is Ok,
    ensures
        content_after(cache, first_page) is Fetched,
        content_result(content_after(cache, first_page), later_page) == content_result(
            cache,
            first_page,
        ),
        content_after(content_after(cache, first_page), later_page) == content_after(
            cache,
            first_page,
        ),
{
}

/// Failed-fetch law: a failed `get_content` step caches no text, and a later
/// step starts over — it returns exactly what extracting its own page yields.
pub proof fn lemma_failed_fetch_retries(cache: ContentView, first_page: Seq<char>, later_page: Seq<char>)
    requires
        content_result(cache, first_page) is Err,
    ensures
        !(content_after(cache, first_page) is Fetched),
        content_result(content_after(cache, first_page), later_page) == page_text_result(
            later_page,
        ),
{
}

} // verus!
