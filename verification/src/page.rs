//! The page itself: a fixed document skeleton with the chosen media element,
//! the contact links, the version token of the assets and the project data
//! put into it.
//!
//! Every value that goes into the document is encoded first: URLs and the
//! version token as attribute values, the strings of the project data as the
//! data literal prescribes.

use crate::escape::{escape_attribute, html_attr, occurs_at};
use crate::media::{
    has_media, media_markup, select_media, selected_media, MediaView, Tab, TabView,
};
use crate::projects::{projects_json, projects_to_json, Project, ProjectView};
use vstd::prelude::*;

verus! {

/// The document from its start to the version token of the preloaded stylesheet.
pub const PAGE_HEAD: &'static str = r##"<!doctype html>
<html lang="ja">
<head>
<meta charset="utf-8">
<meta name="viewport" content="width=device-width,initial-scale=1">
<title>8ucchiman | Portfolio</title>
<link rel="preload" as="style" href="assets/style.css?v="##;

/// From there to the version token of the stylesheet link.
pub const PAGE_STYLESHEET: &'static str = r##"">
<link rel="stylesheet" href="assets/style.css?v="##;

/// From there to the media element of the hero section.
pub const PAGE_HERO: &'static str = r##"">
<meta name="color-scheme" content="light dark">
</head>
<body>
<div class="bg-orbs" aria-hidden="true"></div>

<!-- フルスクリーン巨大プレビュー（ブラウザ全面） -->
<section class="preview" id="home" aria-label="home">
  <!-- 3行固定の見出し（常時表示） -->
  <h2 class="headline">
    <span>Where are you</span>
    <span>going next,</span>
    <span>8ucchiman?</span>
  </h2>

  <!-- 単一メディアのみ表示 -->
  <div class="media" id="media">
    "##;

/// From the media element to the target of the GitHub link: the navigation and the
/// content sections.
pub const PAGE_SECTIONS: &'static str = r##"
  </div>

  <div class="fade"></div>
</section>

<!-- スクロール時に出現するタブ式ナビ -->
<nav class="sticky-tabs" id="stickyTabs" role="navigation" aria-label="section tabs">
  <button data-target="#home"     class="tablink" aria-label="Go to home">home</button>
  <button data-target="#about"    class="tablink" aria-label="Go to about">about</button>
  <button data-target="#projects" class="tablink" aria-label="Go to projects">projects</button>
  <button data-target="#contact"  class="tablink" aria-label="Go to contact">contact</button>
</nav>

<!-- コンテンツセクション -->
<section class="section" id="about" aria-label="about me">
  <div class="container">
    <div class="about-grid">
      <div class="about-media">
        <div class="about-frame">
          <img src="assets/me.jpg" alt="8ucchiman portrait">
        </div>
      </div>
      <div class="about-text">
        <p class="about-kicker">Rust / Robotics / CV</p>
        <h3 class="about-title">About me</h3>
        <div class="about-card">
          <h4 class="about-name">8ucchiman</h4>
          <p class="about-role">Robotics engineer / Rust developer</p>
          <p class="about-bio">I build small, reliable tools and enjoy procedural graphics, embedded systems, and computer vision. This site is generated by a zero‑dependency Rust builder.</p>
          <div class="about-actions">
            <a class="btn" href="https://github.com/8ucchiman" target="_blank" rel="noreferrer">GitHub</a>
            <a class="btn ghost" href="https://8ucchiman.github.io" target="_blank" rel="noreferrer">Blog</a>
          </div>
        </div>
      </div>
    </div>
  </div>
</section>

<section class="section" id="projects" aria-label="projects">
  <div class="container">
    <h3>projects</h3>
    <div class="proj-controls" id="proj-controls" aria-label="project filters"></div>
    <div class="proj-grid" id="proj-grid" aria-live="polite"></div>
  </div>
</section>

<section class="section" id="contact" aria-label="contact">
  <div class="container">
    
    <div class="contact-column">
    <div class="contact-links">
      <a class="icon-link" href=""##;

/// From the target of the GitHub link to the target of the LinkedIn link.
pub const PAGE_LINKEDIN: &'static str = r##"" target="_blank" rel="noreferrer">
        <svg class="icon" viewBox="0 0 24 24" aria-hidden="true"><path fill="currentColor" d="M12 .5a12 12 0 0 0-3.79 23.39c.6.11.82-.26.82-.58v-2.14c-3.34.73-4.04-1.61-4.04-1.61-.55-1.39-1.35-1.76-1.35-1.76-1.1-.75.08-.74.08-.74 1.22.09 1.86 1.27 1.86 1.27 1.08 1.86 2.83 1.32 3.52 1.01.11-.78.42-1.32.76-1.62-2.66-.3-5.47-1.33-5.47-5.92 0-1.31.47-2.39 1.25-3.23-.13-.31-.54-1.56.12-3.25 0 0 1.01-.32 3.3 1.23a11.5 11.5 0 0 1 6 0c2.3-1.55 3.3-1.23 3.3-1.23.66 1.69.25 2.94.12 3.25.78.84 1.25 1.92 1.25 3.23 0 4.6-2.81 5.61-5.49 5.91.43.37.81 1.1.81 2.22v3.29c0 .32.21.7.82.58A12 12 0 0 0 12 .5z"/></svg>
      </a>
      <a class="icon-link" href=""##;

/// From the target of the LinkedIn link to the target of the YouTube link.
pub const PAGE_YOUTUBE: &'static str = r##"" target="_blank" rel="noreferrer">
        <svg class="icon" viewBox="0 0 24 24" aria-hidden="true"><path fill="currentColor" d="M22.225 0H1.771C.792 0 0 .774 0 1.729v20.542C0 23.226.792 24 1.771 24h20.454C23.205 24 24 23.226 24 22.271V1.729C24 .774 23.205 0 22.225 0ZM6.75 20.452H3.92V9H6.75v11.452ZM5.337 7.433a2.062 2.062 0 1 1 0-4.124 2.062 2.062 0 0 1 0 4.124ZM20.447 20.452h-3.554V14.74c0-1.361-.027-3.112-1.897-3.112-1.898 0-2.189 1.48-2.189 3.007v5.817H9.254V9h3.414v1.561h.049c.476-.9 1.637-1.848 3.372-1.848 3.605 0 4.266 2.372 4.266 5.455v6.284Z"/></svg>
      </a>
      <a class="icon-link" href=""##;

/// From the target of the YouTube link to the target of the blog link.
pub const PAGE_BLOG: &'static str = r##"" target="_blank" rel="noreferrer">
        <svg class="icon" viewBox="0 0 24 24" aria-hidden="true"><path fill="currentColor" d="M23.5 6.2a3.5 3.5 0 0 0-2.46-2.48C19.2 3.2 12 3.2 12 3.2s-7.2 0-9.04.52A3.5 3.5 0 0 0 .5 6.2 36.8 36.8 0 0 0 0 12c0 1.92.18 3.84.5 5.8a3.5 3.5 0 0 0 2.46 2.48C4.8 20.8 12 20.8 12 20.8s7.2 0 9.04-.52a3.5 3.5 0 0 0 2.46-2.48c.32-1.95.5-3.87.5-5.8 0-1.92-.18-3.84-.5-5.8ZM9.6 15.5V8.5L15.8 12l-6.2 3.5Z"/></svg>
      </a>
      <a class="icon-link" href=""##;

/// From the target of the blog link to the place of the fallback notice.
pub const PAGE_CONTACT_END: &'static str = r##"" target="_blank" rel="noreferrer">
        <svg class="icon" viewBox="0 0 24 24" aria-hidden="true"><path fill="currentColor" d="M5 3h10a4 4 0 0 1 4 4v12a2 2 0 0 1-2 2H7V5a2 2 0 0 1-2-2Zm0 2v14h12V7a2 2 0 0 0-2-2H5Zm3 4h6v2H8V9Zm0 4h8v2H8v-2Z"/></svg>
      </a>
    </div>
    <div class="contact-meta">
      <p class="contact-line"><a class="mail-link" href="mailto:8ucchiman@gmail.com">8ucchiman@gmail.com</a></p>
      <p class="contact-credit">YUKI IWABUCHI &copy; 2025</p>
    </div>
    </div>
  </div>
</section>

"##;

/// From the place of the fallback notice to the embedded project data.
pub const PAGE_DATA: &'static str = r##"
<script>window.__PROJECTS__ = "##;

/// From the embedded project data to the version token of the client script.
pub const PAGE_SCRIPT: &'static str = r##";</script>
<script src="assets/app.js?v="##;

/// From there to the end of the document.
pub const PAGE_END: &'static str = r##"" defer></script>
</body>
</html>
"##;

/// The notice shown when no media was found.
pub const FALLBACK_NOTE: &'static str =
    r##"<p class="desc">No media found. Put a GIF/MP4 under assets/ and set its path in the code.</p>"##;

/// The fallback notice as the document holds it: the notice when no media
/// was chosen, and nothing at all otherwise.
pub open spec fn fallback_note(m: MediaView) -> Seq<char> {
    if has_media(m) {
        Seq::empty()
    } else {
        FALLBACK_NOTE@
    }
}

/// The part of the document that stands before the fallback notice.
pub open spec fn document_upper(
    m: MediaView,
    ver: Seq<char>,
    gh: Seq<char>,
    li: Seq<char>,
    yt: Seq<char>,
    blog: Seq<char>,
) -> Seq<char> {
    PAGE_HEAD@ + escape_attribute(ver) + PAGE_STYLESHEET@ + escape_attribute(ver) + PAGE_HERO@
        + media_markup(m) + PAGE_SECTIONS@ + escape_attribute(gh) + PAGE_LINKEDIN@
        + escape_attribute(li) + PAGE_YOUTUBE@ + escape_attribute(yt) + PAGE_BLOG@
        + escape_attribute(blog) + PAGE_CONTACT_END@
}

/// The part of the document that stands behind the fallback notice.
pub open spec fn document_lower(data: Seq<char>, ver: Seq<char>) -> Seq<char> {
    PAGE_DATA@ + data + PAGE_SCRIPT@ + escape_attribute(ver) + PAGE_END@
}

/// The document for the media element `m`, the data literal `data`, the
/// version token `ver` and the four contact links.
pub open spec fn document(
    m: MediaView,
    data: Seq<char>,
    ver: Seq<char>,
    gh: Seq<char>,
    li: Seq<char>,
    yt: Seq<char>,
    blog: Seq<char>,
) -> Seq<char> {
    document_upper(m, ver, gh, li, yt, blog) + fallback_note(m) + document_lower(data, ver)
}

/// The page for a registry of tabs and a list of projects.
pub open spec fn index_document(
    tabs: Seq<TabView>,
    projects: Seq<ProjectView>,
    ver: Seq<char>,
    gh: Seq<char>,
    li: Seq<char>,
    yt: Seq<char>,
    blog: Seq<char>,
) -> Seq<char> {
    document(selected_media(tabs), projects_json(projects), ver, gh, li, yt, blog)
}

/// The document holds the markup of its media element in the hero section,
/// right behind the opening of the media container.
pub proof fn lemma_document_holds_media(
    m: MediaView,
    data: Seq<char>,
    ver: Seq<char>,
    gh: Seq<char>,
    li: Seq<char>,
    yt: Seq<char>,
    blog: Seq<char>,
)
    ensures
        occurs_at(
            document(m, data, ver, gh, li, yt, blog),
            (PAGE_HEAD@ + escape_attribute(ver) + PAGE_STYLESHEET@ + escape_attribute(ver)
                + PAGE_HERO@).len() as int,
            media_markup(m),
        ),
{
    let before = PAGE_HEAD@ + escape_attribute(ver) + PAGE_STYLESHEET@ + escape_attribute(ver)
        + PAGE_HERO@;
    let after = PAGE_SECTIONS@ + escape_attribute(gh) + PAGE_LINKEDIN@ + escape_attribute(li)
        + PAGE_YOUTUBE@ + escape_attribute(yt) + PAGE_BLOG@ + escape_attribute(blog)
        + PAGE_CONTACT_END@ + fallback_note(m) + document_lower(data, ver);
    let doc = document(m, data, ver, gh, li, yt, blog);
    assert(doc == before + media_markup(m) + after);
    assert(doc.subrange(before.len() as int, (before.len() + media_markup(m).len()) as int)
        == media_markup(m));
}

/// Without media the document holds the fallback notice, between the contact
/// section and the embedded project data. With media it holds nothing in that
/// place: the data follows the contact section directly.
pub proof fn lemma_document_fallback_note(
    m: MediaView,
    data: Seq<char>,
    ver: Seq<char>,
    gh: Seq<char>,
    li: Seq<char>,
    yt: Seq<char>,
    blog: Seq<char>,
)
    ensures
        !has_media(m) ==> occurs_at(
            document(m, data, ver, gh, li, yt, blog),
            document_upper(m, ver, gh, li, yt, blog).len() as int,
            FALLBACK_NOTE@,
        ),
        has_media(m) ==> document(m, data, ver, gh, li, yt, blog) == document_upper(
            m,
            ver,
            gh,
            li,
            yt,
            blog,
        ) + document_lower(data, ver),
{
    let upper = document_upper(m, ver, gh, li, yt, blog);
    let doc = document(m, data, ver, gh, li, yt, blog);
    if has_media(m) {
        assert(upper + Seq::<char>::empty() == upper);
    } else {
        assert(doc.subrange(upper.len() as int, (upper.len() + FALLBACK_NOTE@.len()) as int)
            == FALLBACK_NOTE@);
    }
}

/// Renders the page: chooses the media element from `tabs`, embeds the
/// `projects` as a data literal, and puts the version token `ver` of the
/// assets and the contact links `gh`, `li`, `yt` and `blog` in their places.
pub fn index_page(
    tabs: &[Tab],
    projects: &[Project],
    ver: &str,
    gh: &str,
    li: &str,
    yt: &str,
    blog: &str,
) -> (out: String)
    ensures
        out@ == index_document(
            tabs.deep_view(),
            projects.deep_view(),
            ver@,
            gh@,
            li@,
            yt@,
            blog@,
        ),
{
    let media = select_media(tabs);
    let media_html = media.to_html();
    let data = projects_to_json(projects);
    let token = html_attr(ver);
    let gh_href = html_attr(gh);
    let li_href = html_attr(li);
    let yt_href = html_attr(yt);
    let blog_href = html_attr(blog);

    let mut out = String::from_str(PAGE_HEAD);
    out.append(token.as_str());
    out.append(PAGE_STYLESHEET);
    out.append(token.as_str());
    out.append(PAGE_HERO);
    out.append(media_html.as_str());
    out.append(PAGE_SECTIONS);
    out.append(gh_href.as_str());
    out.append(PAGE_LINKEDIN);
    out.append(li_href.as_str());
    out.append(PAGE_YOUTUBE);
    out.append(yt_href.as_str());
    out.append(PAGE_BLOG);
    out.append(blog_href.as_str());
    out.append(PAGE_CONTACT_END);
    assert(out@ == document_upper(media@, ver@, gh@, li@, yt@, blog@));
    if !media.has_media() {
        out.append(FALLBACK_NOTE);
    }
    assert(out@ == document_upper(media@, ver@, gh@, li@, yt@, blog@) + fallback_note(media@));
    let ghost upper = out@;
    out.append(PAGE_DATA);
    out.append(data.as_str());
    out.append(PAGE_SCRIPT);
    out.append(token.as_str());
    out.append(PAGE_END);
    assert(out@ == upper + document_lower(data@, ver@));
    out
}

} // verus!
