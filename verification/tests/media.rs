use portfolio::media::{blank, pick_media_html, select_media, white_space, RenderedMedia, Tab};

fn tab<'a>(key: &'a str, video_url: &'a str, gif_url: &'a str) -> Tab<'a> {
    Tab {
        key,
        label: key,
        description: "",
        gif_url,
        video_url,
    }
}

#[test]
fn later_video_outranks_earlier_gif() {
    let tabs = [tab("a", "", "a.gif"), tab("b", "b.mp4", "")];
    let m = select_media(&tabs);
    assert!(matches!(m, RenderedMedia::Video("b.mp4")));
    assert!(m.has_media());
    let (html, has_media) = pick_media_html(&tabs);
    assert!(has_media);
    assert_eq!(
        html,
        "<video playsinline muted loop autoplay preload=\"metadata\" src=\"b.mp4\"></video>"
    );
}

#[test]
fn registry_without_urls_gets_the_placeholder() {
    let tabs = [tab("a", "", "")];
    let m = select_media(&tabs);
    assert!(matches!(m, RenderedMedia::Placeholder));
    assert!(!m.has_media());
    let (html, has_media) = pick_media_html(&tabs);
    assert!(!has_media);
    assert_eq!(html, "<div class=\"placeholder\"></div>");
}

#[test]
fn empty_registry_gets_the_placeholder() {
    let tabs: [Tab; 0] = [];
    assert!(matches!(select_media(&tabs), RenderedMedia::Placeholder));
    let (html, has_media) = pick_media_html(&tabs);
    assert!(!has_media);
    assert_eq!(html, "<div class=\"placeholder\"></div>");
}

#[test]
fn first_video_wins_among_several() {
    let tabs = [
        tab("a", "", "a.gif"),
        tab("b", "first.mp4", "b.gif"),
        tab("c", "second.mp4", ""),
    ];
    assert!(matches!(select_media(&tabs), RenderedMedia::Video("first.mp4")));
}

#[test]
fn video_wins_over_gif_of_the_same_entry() {
    let tabs = [tab("a", "a.mp4", "a.gif")];
    assert!(matches!(select_media(&tabs), RenderedMedia::Video("a.mp4")));
}

#[test]
fn first_gif_wins_without_video() {
    let tabs = [
        tab("a", "", ""),
        tab("b", "", "assets/mugen.gif"),
        tab("c", "", "assets/samurai_champloo.gif"),
    ];
    let m = select_media(&tabs);
    assert!(matches!(m, RenderedMedia::Gif("assets/mugen.gif")));
    let (html, has_media) = pick_media_html(&tabs);
    assert!(has_media);
    assert_eq!(
        html,
        "<img loading=\"lazy\" src=\"assets/mugen.gif\" alt=\"preview gif\">"
    );
}

#[test]
fn url_of_white_space_counts_as_absent() {
    let tabs = [tab("a", "  \t\n", "\u{3000}"), tab("b", " ", "b.gif")];
    assert!(matches!(select_media(&tabs), RenderedMedia::Gif("b.gif")));
    let tabs = [tab("a", " \u{a0} ", " ")];
    assert!(matches!(select_media(&tabs), RenderedMedia::Placeholder));
}

#[test]
fn url_is_kept_untrimmed() {
    let tabs = [tab("a", " a.mp4 ", "")];
    assert!(matches!(select_media(&tabs), RenderedMedia::Video(" a.mp4 ")));
}

#[test]
fn url_is_escaped_in_the_markup() {
    let tabs = [tab("a", "v.mp4?a=1&b=\"2\"", "")];
    let (html, _) = pick_media_html(&tabs);
    assert_eq!(
        html,
        "<video playsinline muted loop autoplay preload=\"metadata\" src=\"v.mp4?a=1&amp;b=&quot;2&quot;\"></video>"
    );
    let tabs = [tab("a", "", "<g>.gif")];
    let (html, _) = pick_media_html(&tabs);
    assert_eq!(
        html,
        "<img loading=\"lazy\" src=\"&lt;g&gt;.gif\" alt=\"preview gif\">"
    );
}

#[test]
fn to_html_renders_each_kind() {
    assert_eq!(
        RenderedMedia::Video("x.mp4").to_html(),
        "<video playsinline muted loop autoplay preload=\"metadata\" src=\"x.mp4\"></video>"
    );
    assert_eq!(
        RenderedMedia::Gif("x.gif").to_html(),
        "<img loading=\"lazy\" src=\"x.gif\" alt=\"preview gif\">"
    );
    assert_eq!(
        RenderedMedia::Placeholder.to_html(),
        "<div class=\"placeholder\"></div>"
    );
}

#[test]
fn white_space_agrees_with_the_standard_library_on_every_character() {
    let mut n: u32 = 0;
    while n <= 0x10FFFF {
        if let Some(c) = char::from_u32(n) {
            assert_eq!(white_space(c), c.is_whitespace());
        }
        n += 1;
    }
}

#[test]
fn blank_agrees_with_trimming() {
    let inputs = [
        "",
        " ",
        "\t\r\n",
        "a",
        " a ",
        "\u{2003}\u{2028}",
        "\u{200b}",
        "\u{feff}",
        "  .  ",
        "\u{85}\u{1680}\u{202f}\u{205f}",
    ];
    for s in inputs {
        assert_eq!(blank(s), s.trim().is_empty());
    }
    assert!(blank(""));
    assert!(blank(" \t "));
    assert!(!blank(" x "));
    assert!(!blank("\u{200b}"));
}
