//! Turning the fetched homepage into the ordered story list.

use crate::extract::BlockView;
use crate::extract::ExtractionError;
use crate::extract::HeadlineBlock;
use crate::extract::headline_blocks_of;
use crate::extract::link_attribute;
use crate::extract::select_blocks;
use crate::extract::story_selector;
use crate::extract::trim_of;
use crate::extract::trim_ws;
use crate::story::ContentView;
use crate::story::Story;
use crate::story::StoryView;
use crate::story::site_base;
use vstd::prelude::*;

verus! {

/// A usable headline pattern outcome: at least one block matched, and every
/// match carries both its text child and its enclosing link attribute. A
/// single malformed match makes the whole homepage unusable.
pub open spec fn blocks_wf(blocks: Seq<BlockView>) -> bool {
    &&& blocks.len() > 0
    &&& forall|i: int|
        0 <= i < blocks.len() ==> (#[trigger] blocks[i]).text is Some && blocks[i].href is Some
}

/// The story a well-formed headline block turns into: its text trimmed, its
/// captured path prefixed with the site base, its content unfetched.
pub open spec fn story_of_block(block: BlockView) -> StoryView {
    StoryView {
        headline: trim_of(block.text->0),
        link: site_base() + block.href->0,
        content: ContentView::Unfetched,
    }
}

/// The ordered story list of a well-formed headline pattern outcome.
pub open spec fn story_list_of(blocks: Seq<BlockView>) -> Seq<StoryView> {
    blocks.map_values(|block: BlockView| story_of_block(block))
}

/// Builds the story list from the outcome of the headline query: one story
/// per block, in document order, exactly when the outcome is well formed;
/// any malformed or empty outcome aborts extraction instead.
pub fn extract_story_list(blocks: Vec<HeadlineBlock>) -> (r: Result<Vec<Story>, ExtractionError>)
    ensures
        r is Ok <==> blocks_wf(blocks.deep_view()),
        r is Ok ==> r->Ok_0.deep_view() == story_list_of(blocks.deep_view()),
{
    let ghost all = blocks.deep_view();
    if blocks.len() == 0 {
        return Result::Err(ExtractionError);
    }
    let mut stories: Vec<Story> = Vec::new();
    let mut i: usize = 0;
    while i < blocks.len()
        invariant
            i <= blocks.len(),
            all == blocks.deep_view(),
            all.len() > 0,
            forall|j: int|
                0 <= j < i ==> (#[trigger] all[j]).text is Some && all[j].href is Some,
            stories.deep_view() == story_list_of(all.take(i as int)),
        decreases blocks.len() - i,
    {
        let block = &blocks[i];
        match (&block.text, &block.href) {
            (Option::Some(text), Option::Some(href)) => {
                let headline = trim_ws(text.as_str()).to_owned();
                let story = Story::new(headline, href.as_str());
                stories.push(story);
                proof {
                    assert(all[i as int].text->0 == text@);
                    assert(all[i as int].href->0 == href@);
                    assert(story@ == story_of_block(all[i as int]));
                    assert(all.take(i + 1) =~= all.take(i as int).push(all[i as int]));
                    assert(story_list_of(all.take(i + 1)) =~= story_list_of(all.take(i as int)).push(
                        story_of_block(all[i as int]),
                    ));
                    assert(stories.deep_view() =~= story_list_of(all.take(i + 1)));
                }
            },
            _ => {
                proof {
                    assert(!(all[i as int].text is Some && all[i as int].href is Some));
                    assert(!blocks_wf(all));
                }
                return Result::Err(ExtractionError);
            },
        }
        i += 1;
    }
    proof {
        assert(all.take(blocks.len() as int) =~= all);
        assert(stories.deep_view() =~= story_list_of(all));
    }
    Result::Ok(stories)
}

/// Extracts the homepage's ordered story list: the text of every headline
/// block, trimmed, with the link read from its enclosing anchor and made
/// absolute; fails with `ExtractionError` when the pattern matches nothing
/// or any single match is malformed.
pub fn article_links(html: &str) -> (r: Result<Vec<Story>, ExtractionError>)
    ensures
        r is Ok <==> blocks_wf(headline_blocks_of(html@, story_selector(), link_attribute())),
        r is Ok ==> r->Ok_0.deep_view() == story_list_of(
            headline_blocks_of(html@, story_selector(), link_attribute()),
        ),
{
    let blocks = select_blocks(html, ".top-stories .omnicard__headline", "href");
    extract_story_list(blocks)
}

} // verus!
