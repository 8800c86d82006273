use oxmail::extract::ArticleError;
use oxmail::extract::HeadlineBlock;
use oxmail::extract::extract_article_text;
use oxmail::extract::extract_article_text_from;
use oxmail::homepage::article_links;
use oxmail::homepage::extract_story_list;

fn homepage_html(entries: &[(&str, &str)]) -> String {
    let mut cards = String::new();
    for (headline, path) in entries {
        cards.push_str(&format!(
            "<a href=\"{}\"><span class=\"omnicard__headline\">{}</span></a>",
            path, headline
        ));
    }
    format!(
        "<html><body><div class=\"top-stories\">{}</div></body></html>",
        cards
    )
}

fn article_html(paragraphs: &[&str]) -> String {
    let mut body = String::new();
    for p in paragraphs {
        body.push_str(&format!("<p>{}</p>", p));
    }
    format!(
        "<html><body><div class=\"article-body\">{}</div></body></html>",
        body
    )
}

#[test]
fn story_list_no_matches_fails() {
    let html = "<html><body><div class=\"unrelated\">nothing here</div></body></html>";
    assert!(article_links(html).is_err());
}

#[test]
fn story_list_k_matches_in_document_order() {
    let html = homepage_html(&[("First", "/news/1"), ("Second", "/news/2"), ("Third", "/news/3")]);
    let stories = article_links(&html).unwrap();
    assert_eq!(stories.len(), 3);
    assert_eq!(stories[0].headline, "First");
    assert_eq!(stories[1].headline, "Second");
    assert_eq!(stories[2].headline, "Third");
    assert_eq!(stories[0].link, "https://www.oxfordmail.co.uk/news/1");
    assert_eq!(stories[1].link, "https://www.oxfordmail.co.uk/news/2");
    assert_eq!(stories[2].link, "https://www.oxfordmail.co.uk/news/3");
}

#[test]
fn story_list_headlines_are_trimmed() {
    let html = homepage_html(&[("  Padded headline  ", "/news/9")]);
    let stories = article_links(&html).unwrap();
    assert_eq!(stories[0].headline, "Padded headline");
}

#[test]
fn story_list_match_without_anchor_attribute_fails() {
    let html = "<html><body><div class=\"top-stories\">\
                <div><span class=\"omnicard__headline\">Orphan</span></div>\
                </div></body></html>";
    assert!(article_links(html).is_err());
}

#[test]
fn story_list_match_without_text_child_fails() {
    let html = "<html><body><div class=\"top-stories\">\
                <a href=\"/x\"><span class=\"omnicard__headline\"><b>Bold</b></span></a>\
                </div></body></html>";
    assert!(article_links(html).is_err());
}

#[test]
fn story_list_one_malformed_match_aborts_all() {
    let html = "<html><body><div class=\"top-stories\">\
                <a href=\"/ok\"><span class=\"omnicard__headline\">Fine</span></a>\
                <div><span class=\"omnicard__headline\">Broken</span></div>\
                </div></body></html>";
    assert!(article_links(html).is_err());
}

#[test]
fn story_list_from_blocks_builds_stories() {
    let blocks = vec![
        HeadlineBlock { text: Some("A".to_string()), href: Some("/a".to_string()) },
        HeadlineBlock { text: Some("B".to_string()), href: Some("/b".to_string()) },
    ];
    let stories = extract_story_list(blocks).unwrap();
    assert_eq!(stories.len(), 2);
    assert_eq!(stories[0].headline, "A");
    assert_eq!(stories[1].link, "https://www.oxfordmail.co.uk/b");
}

#[test]
fn story_list_from_no_blocks_fails() {
    assert!(extract_story_list(Vec::new()).is_err());
}

#[test]
fn story_list_from_block_missing_href_fails() {
    let blocks = vec![HeadlineBlock { text: Some("A".to_string()), href: None }];
    assert!(extract_story_list(blocks).is_err());
}

#[test]
fn article_text_joins_paragraphs_with_newline() {
    let html = article_html(&["Hello", "World"]);
    assert_eq!(extract_article_text(&html).unwrap(), "Hello\nWorld");
}

#[test]
fn article_text_keeps_repeated_paragraphs() {
    let html = article_html(&["Same line", "Same line"]);
    assert_eq!(extract_article_text(&html).unwrap(), "Same line\nSame line");
}

#[test]
fn article_text_trims_each_paragraph() {
    let html = article_html(&["   spaced out\t ", "tight"]);
    assert_eq!(extract_article_text(&html).unwrap(), "spaced out\ntight");
}

#[test]
fn article_text_without_body_is_not_found() {
    let html = "<html><body><div class=\"something-else\"><p>Hi</p></div></body></html>";
    assert_eq!(extract_article_text(html), Err(ArticleError::NotFound));
}

#[test]
fn article_text_with_empty_paragraph_is_malformed() {
    let html = "<html><body><div class=\"article-body\">\
                <p>Good</p><p></p>\
                </div></body></html>";
    assert_eq!(extract_article_text(html), Err(ArticleError::MalformedParagraph));
}

#[test]
fn article_text_from_paragraphs() {
    let paragraphs = Some(vec![Some("Hello".to_string()), Some("World".to_string())]);
    assert_eq!(extract_article_text_from(paragraphs).unwrap(), "Hello\nWorld");
}

#[test]
fn article_text_from_nothing_is_not_found() {
    assert_eq!(extract_article_text_from(None), Err(ArticleError::NotFound));
}

#[test]
fn article_text_from_textless_paragraph_is_malformed() {
    let paragraphs = Some(vec![Some("Good".to_string()), None]);
    assert_eq!(
        extract_article_text_from(paragraphs),
        Err(ArticleError::MalformedParagraph)
    );
}

#[test]
fn article_text_from_zero_paragraphs_is_empty() {
    assert_eq!(extract_article_text_from(Some(Vec::new())).unwrap(), "");
}

#[test]
fn article_error_messages() {
    assert_eq!(
        ArticleError::NotFound.message(),
        "No article body was found on this page."
    );
    assert_eq!(
        ArticleError::MalformedParagraph.message(),
        "A paragraph on this page could not be read."
    );
}
