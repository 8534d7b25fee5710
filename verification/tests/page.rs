use portfolio::assets::{APP_JS, STYLE_CSS};
use portfolio::media::Tab;
use portfolio::page::{
    index_page, FALLBACK_NOTE, PAGE_BLOG, PAGE_CONTACT_END, PAGE_DATA, PAGE_END, PAGE_HEAD,
    PAGE_HERO, PAGE_LINKEDIN, PAGE_SCRIPT, PAGE_SECTIONS, PAGE_STYLESHEET, PAGE_YOUTUBE,
};
use portfolio::projects::Project;

const NOTE: &str = "<p class=\"desc\">No media found. Put a GIF/MP4 under assets/ and set its path in the code.</p>";

fn tab<'a>(video_url: &'a str, gif_url: &'a str) -> Tab<'a> {
    Tab {
        key: "k",
        label: "l",
        description: "d",
        gif_url,
        video_url,
    }
}

fn count(haystack: &str, needle: &str) -> usize {
    haystack.matches(needle).count()
}

#[test]
fn page_without_media_holds_the_fallback_note() {
    let tabs = [tab("", "")];
    let page = index_page(&tabs, &[], "dev", "g", "l", "y", "b");
    assert_eq!(FALLBACK_NOTE, NOTE);
    assert_eq!(count(&page, NOTE), 1);
    assert!(page.contains("<div class=\"media\" id=\"media\">\n    <div class=\"placeholder\"></div>\n  </div>"));
    assert!(page.contains(&format!("</section>\n\n{}\n<script>window.__PROJECTS__ = [];</script>", NOTE)));
}

#[test]
fn page_with_media_omits_the_fallback_note() {
    let tabs = [tab("", "a.gif"), tab("b.mp4", "")];
    let page = index_page(&tabs, &[], "dev", "g", "l", "y", "b");
    assert_eq!(count(&page, "No media found"), 0);
    assert_eq!(count(&page, "class=\"desc\""), 0);
    assert!(page.contains("<div class=\"media\" id=\"media\">\n    <video playsinline muted loop autoplay preload=\"metadata\" src=\"b.mp4\"></video>\n  </div>"));
    assert!(page.contains("</section>\n\n\n<script>window.__PROJECTS__ = [];</script>"));
    assert_eq!(count(&page, "<video"), 1);
    assert_eq!(count(&page, "<img loading"), 0);
}

#[test]
fn page_holds_exactly_one_media_element() {
    let tabs = [tab("", "a.gif"), tab("", "b.gif")];
    let page = index_page(&tabs, &[], "dev", "g", "l", "y", "b");
    assert_eq!(count(&page, "<img loading=\"lazy\" src=\"a.gif\" alt=\"preview gif\">"), 1);
    assert_eq!(count(&page, "b.gif"), 0);
    assert_eq!(count(&page, "<video"), 0);
    assert_eq!(count(&page, "class=\"placeholder\""), 0);
}

#[test]
fn page_is_the_skeleton_with_the_values_in_their_places() {
    let tabs = [tab("v.mp4", "")];
    let projects = [Project {
        title: "T",
        image_url: "i.png",
        github_url: "",
        demo_url: "",
        tags: &["x"],
    }];
    let page = index_page(
        &tabs,
        &projects,
        "abc123",
        "https://github.com/u",
        "https://www.linkedin.com/in/u",
        "https://www.youtube.com/@u",
        "https://u.github.io",
    );
    let mut expected = String::new();
    expected.push_str(PAGE_HEAD);
    expected.push_str("abc123");
    expected.push_str(PAGE_STYLESHEET);
    expected.push_str("abc123");
    expected.push_str(PAGE_HERO);
    expected.push_str("<video playsinline muted loop autoplay preload=\"metadata\" src=\"v.mp4\"></video>");
    expected.push_str(PAGE_SECTIONS);
    expected.push_str("https://github.com/u");
    expected.push_str(PAGE_LINKEDIN);
    expected.push_str("https://www.linkedin.com/in/u");
    expected.push_str(PAGE_YOUTUBE);
    expected.push_str("https://www.youtube.com/@u");
    expected.push_str(PAGE_BLOG);
    expected.push_str("https://u.github.io");
    expected.push_str(PAGE_CONTACT_END);
    expected.push_str(PAGE_DATA);
    expected.push_str("[{\"title\":\"T\",\"image_url\":\"i.png\",\"github_url\":\"\",\"demo_url\":\"\",\"tags\":[\"x\"]}]");
    expected.push_str(PAGE_SCRIPT);
    expected.push_str("abc123");
    expected.push_str(PAGE_END);
    assert_eq!(page, expected);
}

#[test]
fn page_starts_and_ends_as_a_document() {
    let page = index_page(&[], &[], "dev", "", "", "", "");
    assert!(page.starts_with("<!doctype html>\n<html lang=\"ja\">\n<head>\n<meta charset=\"utf-8\">"));
    assert!(page.ends_with("<script src=\"assets/app.js?v=dev\" defer></script>\n</body>\n</html>\n"));
    assert!(page.contains("<link rel=\"preload\" as=\"style\" href=\"assets/style.css?v=dev\">\n<link rel=\"stylesheet\" href=\"assets/style.css?v=dev\">"));
    assert_eq!(count(&page, "?v=dev"), 3);
    assert_eq!(count(&page, "<nav class=\"sticky-tabs\" id=\"stickyTabs\""), 1);
    assert_eq!(count(&page, "<section class=\"section\""), 3);
    assert_eq!(count(&page, "<section class=\"preview\" id=\"home\""), 1);
}

#[test]
fn page_escapes_the_contact_links_and_the_version() {
    let page = index_page(
        &[],
        &[],
        "v\"1&2",
        "https://g/?a=1&b=2",
        "\"><script>",
        "y",
        "b",
    );
    assert!(page.contains("<a class=\"icon-link\" href=\"https://g/?a=1&amp;b=2\" target=\"_blank\" rel=\"noreferrer\">"));
    assert!(page.contains("<a class=\"icon-link\" href=\"&quot;&gt;&lt;script&gt;\" target=\"_blank\" rel=\"noreferrer\">"));
    assert!(page.contains("href=\"assets/style.css?v=v&quot;1&amp;2\""));
    assert!(page.contains("src=\"assets/app.js?v=v&quot;1&amp;2\" defer"));
    assert_eq!(count(&page, "\"><script>"), 0);
}

#[test]
fn page_links_stand_in_their_order() {
    let page = index_page(&[], &[], "dev", "GH-LINK", "LI-LINK", "YT-LINK", "BLOG-LINK");
    let gh = page.find("href=\"GH-LINK\"").unwrap();
    let li = page.find("href=\"LI-LINK\"").unwrap();
    let yt = page.find("href=\"YT-LINK\"").unwrap();
    let blog = page.find("href=\"BLOG-LINK\"").unwrap();
    assert!(gh < li && li < yt && yt < blog);
}

#[test]
fn assets_are_the_stylesheet_and_the_script() {
    assert!(STYLE_CSS.starts_with("\n/* === mononoki"));
    assert!(STYLE_CSS.contains(".placeholder{ width:100%; height:100%;"));
    assert!(STYLE_CSS.ends_with(".about-bio{ margin:.2rem 0 1rem; line-height:1.7; opacity:.95; }\n"));
    assert_eq!(STYLE_CSS.len(), 8377);
    assert!(APP_JS.contains("const data = (window.__PROJECTS__ || []);"));
    assert!(APP_JS.contains("document.getElementById('stickyTabs')"));
    assert!(APP_JS.ends_with("  render();\n})();\n"));
}
