//! The tab registry and the choice of the one preview media element.
//!
//! The hero section of the page shows exactly one media element. A video
//! anywhere in the registry outranks every animated image: the first entry
//! with a video URL wins, whatever its position and whatever image URLs stand
//! before it. Without any video the first entry with an image URL wins.
//! Without either a placeholder is shown.
//!
//! A URL counts as present when something is left of it once white space is
//! trimmed from both ends, that is, when it holds a character that is not
//! white space.

use crate::escape::{escape_attribute, html_attr};
use vstd::prelude::*;

verus! {

/// One content category of the site, with its optional preview media. An
/// absent URL is written as the empty string.
#[derive(Clone, Copy, Debug)]
pub struct Tab<'a> {
    pub key: &'a str,
    pub label: &'a str,
    pub description: &'a str,
    pub gif_url: &'a str,
    pub video_url: &'a str,
}

/// What a [`Tab`] holds, as sequences of characters.
pub ghost struct TabView {
    pub key: Seq<char>,
    pub label: Seq<char>,
    pub description: Seq<char>,
    pub gif_url: Seq<char>,
    pub video_url: Seq<char>,
}

impl<'a> DeepView for Tab<'a> {
    type V = TabView;

    open spec fn deep_view(&self) -> TabView {
        TabView {
            key: self.key@,
            label: self.label@,
            description: self.description@,
            gif_url: self.gif_url@,
            video_url: self.video_url@,
        }
    }
}

/// The media element chosen for the hero section.
#[derive(Clone, Copy, Debug)]
pub enum RenderedMedia<'a> {
    Video(&'a str),
    Gif(&'a str),
    Placeholder,
}

/// What a [`RenderedMedia`] holds, as sequences of characters.
pub ghost enum MediaView {
    Video(Seq<char>),
    Gif(Seq<char>),
    Placeholder,
}

impl<'a> View for RenderedMedia<'a> {
    type V = MediaView;

    open spec fn view(&self) -> MediaView {
        match *self {
            RenderedMedia::Video(url) => MediaView::Video(url@),
            RenderedMedia::Gif(url) => MediaView::Gif(url@),
            RenderedMedia::Placeholder => MediaView::Placeholder,
        }
    }
}

/// The characters with the Unicode property White_Space.
pub open spec fn is_white_space(c: char) -> bool {
    let n = c as u32;
    ||| 0x09 <= n <= 0x0D
    ||| n == 0x20
    ||| n == 0x85
    ||| n == 0xA0
    ||| n == 0x1680
    ||| 0x2000 <= n <= 0x200A
    ||| n == 0x2028
    ||| n == 0x2029
    ||| n == 0x202F
    ||| n == 0x205F
    ||| n == 0x3000
}

/// Whether nothing is left of `s` once white space is trimmed from both ends:
/// `s` is empty or holds white space only.
pub open spec fn is_blank(s: Seq<char>) -> bool {
    forall|i: int| 0 <= i < s.len() ==> is_white_space(#[trigger] s[i])
}

/// Whether position `i` is the first entry of the registry with a video URL.
pub open spec fn is_first_video(tabs: Seq<TabView>, i: int) -> bool {
    &&& 0 <= i < tabs.len()
    &&& !is_blank(tabs[i].video_url)
    &&& forall|j: int| 0 <= j < i ==> is_blank(#[trigger] tabs[j].video_url)
}

/// Whether position `i` is the first entry of the registry with an image URL.
pub open spec fn is_first_gif(tabs: Seq<TabView>, i: int) -> bool {
    &&& 0 <= i < tabs.len()
    &&& !is_blank(tabs[i].gif_url)
    &&& forall|j: int| 0 <= j < i ==> is_blank(#[trigger] tabs[j].gif_url)
}

/// The media element that the registry `tabs` calls for.
pub open spec fn selected_media(tabs: Seq<TabView>) -> MediaView {
    if exists|i: int| is_first_video(tabs, i) {
        MediaView::Video(tabs[choose|i: int| is_first_video(tabs, i)].video_url)
    } else if exists|i: int| is_first_gif(tabs, i) {
        MediaView::Gif(tabs[choose|i: int| is_first_gif(tabs, i)].gif_url)
    } else {
        MediaView::Placeholder
    }
}

/// Whether real media was chosen, and not the placeholder.
pub open spec fn has_media(m: MediaView) -> bool {
    !(m is Placeholder)
}

/// The start of a video element, up to the value of its `src` attribute.
pub const VIDEO_OPEN: &'static str =
    "<video playsinline muted loop autoplay preload=\"metadata\" src=\"";

/// The end of a video element, from the closing quote of its `src` attribute.
pub const VIDEO_CLOSE: &'static str = "\"></video>";

/// The start of an image element, up to the value of its `src` attribute.
pub const GIF_OPEN: &'static str = "<img loading=\"lazy\" src=\"";

/// The end of an image element, from the closing quote of its `src` attribute.
pub const GIF_CLOSE: &'static str = "\" alt=\"preview gif\">";

/// The element shown when there is no media.
pub const PLACEHOLDER: &'static str = "<div class=\"placeholder\"></div>";

/// The markup of a media element. The URL is encoded as an attribute value.
pub open spec fn media_markup(m: MediaView) -> Seq<char> {
    match m {
        MediaView::Video(url) => VIDEO_OPEN@ + escape_attribute(url) + VIDEO_CLOSE@,
        MediaView::Gif(url) => GIF_OPEN@ + escape_attribute(url) + GIF_CLOSE@,
        MediaView::Placeholder => PLACEHOLDER@,
    }
}

/// A registry has at most one first entry with a video URL, and at most one
/// first entry with an image URL.
pub proof fn lemma_first_unique(tabs: Seq<TabView>, i: int, j: int)
    ensures
        is_first_video(tabs, i) && is_first_video(tabs, j) ==> i == j,
        is_first_gif(tabs, i) && is_first_gif(tabs, j) ==> i == j,
{
    if is_first_video(tabs, i) && is_first_video(tabs, j) {
        if i < j {
            assert(is_blank(tabs[i].video_url));
        } else if j < i {
            assert(is_blank(tabs[j].video_url));
        }
    }
    if is_first_gif(tabs, i) && is_first_gif(tabs, j) {
        if i < j {
            assert(is_blank(tabs[i].gif_url));
        } else if j < i {
            assert(is_blank(tabs[j].gif_url));
        }
    }
}

/// Among the entries up to position `i`, where a video URL stands, there is
/// a first one with a video URL.
proof fn lemma_first_video_exists(tabs: Seq<TabView>, i: int) -> (k: int)
    requires
        0 <= i < tabs.len(),
        !is_blank(tabs[i].video_url),
    ensures
        0 <= k <= i,
        is_first_video(tabs, k),
    decreases i,
{
    if forall|j: int| 0 <= j < i ==> is_blank(#[trigger] tabs[j].video_url) {
        i
    } else {
        let j = choose|j: int| 0 <= j < i && !is_blank(#[trigger] tabs[j].video_url);
        lemma_first_video_exists(tabs, j)
    }
}

/// A video outranks every image: as soon as one entry of the registry has a
/// video URL, the choice is the video of the first such entry, whatever image
/// URLs the registry holds and wherever they stand.
pub proof fn lemma_video_wins(tabs: Seq<TabView>, i: int)
    requires
        0 <= i < tabs.len(),
        !is_blank(tabs[i].video_url),
    ensures
        exists|k: int|
            0 <= k <= i && is_first_video(tabs, k) && selected_media(tabs) == MediaView::Video(
                #[trigger] tabs[k].video_url,
            ),
        is_first_video(tabs, i) ==> selected_media(tabs) == MediaView::Video(tabs[i].video_url),
        has_media(selected_media(tabs)),
{
    let k = lemma_first_video_exists(tabs, i);
    let c = choose|c: int| is_first_video(tabs, c);
    lemma_first_unique(tabs, k, c);
    lemma_first_unique(tabs, i, c);
    assert(selected_media(tabs) == MediaView::Video(tabs[k].video_url));
}

/// Among the entries up to position `i`, where an image URL stands, there is
/// a first one with an image URL.
proof fn lemma_first_gif_exists(tabs: Seq<TabView>, i: int) -> (k: int)
    requires
        0 <= i < tabs.len(),
        !is_blank(tabs[i].gif_url),
    ensures
        0 <= k <= i,
        is_first_gif(tabs, k),
    decreases i,
{
    if forall|j: int| 0 <= j < i ==> is_blank(#[trigger] tabs[j].gif_url) {
        i
    } else {
        let j = choose|j: int| 0 <= j < i && !is_blank(#[trigger] tabs[j].gif_url);
        lemma_first_gif_exists(tabs, j)
    }
}

/// Without any video URL in the registry, as soon as one entry has an image
/// URL, the choice is the image of the first such entry.
pub proof fn lemma_first_gif_wins(tabs: Seq<TabView>, i: int)
    requires
        forall|j: int| 0 <= j < tabs.len() ==> is_blank(#[trigger] tabs[j].video_url),
        0 <= i < tabs.len(),
        !is_blank(tabs[i].gif_url),
    ensures
        exists|k: int|
            0 <= k <= i && is_first_gif(tabs, k) && selected_media(tabs) == MediaView::Gif(
                #[trigger] tabs[k].gif_url,
            ),
        is_first_gif(tabs, i) ==> selected_media(tabs) == MediaView::Gif(tabs[i].gif_url),
        has_media(selected_media(tabs)),
{
    assert forall|k: int| !is_first_video(tabs, k) by {
        if 0 <= k < tabs.len() {
            assert(is_blank(tabs[k].video_url));
        }
    }
    let k = lemma_first_gif_exists(tabs, i);
    let c = choose|c: int| is_first_gif(tabs, c);
    lemma_first_unique(tabs, k, c);
    lemma_first_unique(tabs, i, c);
    assert(selected_media(tabs) == MediaView::Gif(tabs[k].gif_url));
}

/// A registry without any URL, the empty registry among them, gets the
/// placeholder, and no media is reported.
pub proof fn lemma_placeholder(tabs: Seq<TabView>)
    requires
        forall|j: int| 0 <= j < tabs.len() ==> is_blank(#[trigger] tabs[j].video_url),
        forall|j: int| 0 <= j < tabs.len() ==> is_blank(#[trigger] tabs[j].gif_url),
    ensures
        selected_media(tabs) == MediaView::Placeholder,
        !has_media(selected_media(tabs)),
{
    assert forall|k: int| !is_first_video(tabs, k) by {
        if 0 <= k < tabs.len() {
            assert(is_blank(tabs[k].video_url));
        }
    }
    assert forall|k: int| !is_first_gif(tabs, k) by {
        if 0 <= k < tabs.len() {
            assert(is_blank(tabs[k].gif_url));
        }
    }
}

/// The placeholder is chosen only for a registry without any URL.
pub proof fn lemma_placeholder_only_without_urls(tabs: Seq<TabView>)
    requires
        selected_media(tabs) == MediaView::Placeholder,
    ensures
        forall|j: int| 0 <= j < tabs.len() ==> is_blank(#[trigger] tabs[j].video_url),
        forall|j: int| 0 <= j < tabs.len() ==> is_blank(#[trigger] tabs[j].gif_url),
{
    assert forall|j: int| 0 <= j < tabs.len() implies is_blank(#[trigger] tabs[j].video_url) by {
        if !is_blank(tabs[j].video_url) {
            lemma_video_wins(tabs, j);
        }
    }
    assert forall|j: int| 0 <= j < tabs.len() implies is_blank(#[trigger] tabs[j].gif_url) by {
        if !is_blank(tabs[j].gif_url) {
            lemma_first_gif_exists(tabs, j);
        }
    }
}

/// Tells whether `c` is white space.
pub fn white_space(c: char) -> (r: bool)
    ensures
        r == is_white_space(c),
{
    let n: u32 = c as u32;
    (0x09 <= n && n <= 0x0D) || n == 0x20 || n == 0x85 || n == 0xA0 || n == 0x1680 || (0x2000 <= n
        && n <= 0x200A) || n == 0x2028 || n == 0x2029 || n == 0x202F || n == 0x205F || n == 0x3000
}

/// Tells whether `s` is empty or holds white space only.
pub fn blank(s: &str) -> (r: bool)
    ensures
        r == is_blank(s@),
{
    for c in it: s.chars()
        invariant
            it.seq() == s@,
            forall|i: int| 0 <= i < it.index() ==> is_white_space(#[trigger] s@[i]),
    {
        if !white_space(c) {
            return false;
        }
    }
    true
}

/// Chooses the media element for the hero section from the registry.
pub fn select_media<'a>(tabs: &[Tab<'a>]) -> (m: RenderedMedia<'a>)
    ensures
        m@ == selected_media(tabs.deep_view()),
{
    let ghost view = tabs.deep_view();
    let mut i: usize = 0;
    while i < tabs.len()
        invariant
            i <= tabs.len(),
            view == tabs.deep_view(),
            forall|j: int| 0 <= j < i ==> is_blank(#[trigger] view[j].video_url),
        decreases tabs.len() - i,
    {
        if !blank(tabs[i].video_url) {
            proof {
                assert(view[i as int].video_url == tabs[i as int].video_url@);
                assert(is_first_video(view, i as int));
                lemma_video_wins(view, i as int);
            }
            return RenderedMedia::Video(tabs[i].video_url);
        }
        proof {
            assert(view[i as int].video_url == tabs[i as int].video_url@);
        }
        i += 1;
    }
    let mut k: usize = 0;
    while k < tabs.len()
        invariant
            k <= tabs.len(),
            view == tabs.deep_view(),
            forall|j: int| 0 <= j < tabs.len() ==> is_blank(#[trigger] view[j].video_url),
            forall|j: int| 0 <= j < k ==> is_blank(#[trigger] view[j].gif_url),
        decreases tabs.len() - k,
    {
        if !blank(tabs[k].gif_url) {
            proof {
                assert(view[k as int].gif_url == tabs[k as int].gif_url@);
                assert(is_first_gif(view, k as int));
                lemma_first_gif_wins(view, k as int);
            }
            return RenderedMedia::Gif(tabs[k].gif_url);
        }
        proof {
            assert(view[k as int].gif_url == tabs[k as int].gif_url@);
        }
        k += 1;
    }
    proof {
        lemma_placeholder(view);
    }
    RenderedMedia::Placeholder
}

impl<'a> RenderedMedia<'a> {
    /// Tells whether real media was chosen, and not the placeholder.
    pub fn has_media(&self) -> (r: bool)
        ensures
            r == has_media(self@),
    {
        match self {
            RenderedMedia::Placeholder => false,
            _ => true,
        }
    }

    /// Renders the element as markup, with its URL encoded as an attribute
    /// value.
    pub fn to_html(&self) -> (out: String)
        ensures
            out@ == media_markup(self@),
    {
        match self {
            RenderedMedia::Video(url) => {
                let mut out = String::from_str(VIDEO_OPEN);
                let src = html_attr(url);
                out.append(src.as_str());
                out.append(VIDEO_CLOSE);
                out
            },
            RenderedMedia::Gif(url) => {
                let mut out = String::from_str(GIF_OPEN);
                let src = html_attr(url);
                out.append(src.as_str());
                out.append(GIF_CLOSE);
                out
            },
            RenderedMedia::Placeholder => String::from_str(PLACEHOLDER),
        }
    }
}

/// Chooses the media element for the hero section and renders it. The second
/// part of the result tells whether real media was found; it is false for the
/// placeholder only.
pub fn pick_media_html(tabs: &[Tab]) -> (r: (String, bool))
    ensures
        r.0@ == media_markup(selected_media(tabs.deep_view())),
        r.1 == has_media(selected_media(tabs.deep_view())),
{
    let m = select_media(tabs);
    (m.to_html(), m.has_media())
}

} // verus!
