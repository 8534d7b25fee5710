use portfolio::escape::{html_attr, html_escape, replace_all};

#[test]
fn text_escapes_the_three_guarded_characters() {
    assert_eq!(html_escape("a < b && c > d"), "a &lt; b &amp;&amp; c &gt; d");
}

#[test]
fn text_leaves_quotes_alone() {
    assert_eq!(html_escape("say \"hi\" & 'bye'"), "say \"hi\" &amp; 'bye'");
}

#[test]
fn text_of_empty_string_is_empty() {
    assert_eq!(html_escape(""), "");
    assert_eq!(html_attr(""), "");
}

#[test]
fn text_without_guarded_characters_is_unchanged() {
    assert_eq!(html_escape("assets/mugen.gif"), "assets/mugen.gif");
    assert_eq!(html_attr("https://example.com/a?b=1"), "https://example.com/a?b=1");
}

#[test]
fn attribute_escapes_rock_and_roll() {
    assert_eq!(
        html_attr("Rock & \"Roll\" <tag>"),
        "Rock &amp; &quot;Roll&quot; &lt;tag&gt;"
    );
}

#[test]
fn attribute_has_no_quote_and_no_angle_bracket() {
    let out = html_attr("\"<>\"&\"<a href=\"x\">");
    assert!(!out.contains('"'));
    assert!(!out.contains('<'));
    assert!(!out.contains('>'));
    assert_eq!(
        out,
        "&quot;&lt;&gt;&quot;&amp;&quot;&lt;a href=&quot;x&quot;&gt;"
    );
}

#[test]
fn ampersand_of_an_entity_is_not_escaped_again_within_one_pass() {
    assert_eq!(html_escape("<"), "&lt;");
    assert_eq!(html_escape(">"), "&gt;");
    assert_eq!(html_attr("\""), "&quot;");
}

#[test]
fn escaping_twice_encodes_the_ampersands_again() {
    let once = html_escape("<b>");
    let twice = html_escape(&once);
    assert_eq!(once, "&lt;b&gt;");
    assert_eq!(twice, "&amp;lt;b&amp;gt;");
    assert_ne!(once, twice);
}

#[test]
fn text_that_looks_escaped_is_escaped_all_the_same() {
    assert_eq!(html_escape("&amp;"), "&amp;amp;");
    assert_eq!(html_attr("&quot;"), "&amp;quot;");
}

#[test]
fn non_ascii_text_passes_through() {
    assert_eq!(html_escape("フル<スクリーン>"), "フル&lt;スクリーン&gt;");
}

fn unescape(s: &str) -> String {
    s.replace("&lt;", "<")
        .replace("&gt;", ">")
        .replace("&quot;", "\"")
        .replace("&amp;", "&")
}

#[test]
fn unescaping_gives_the_input_back() {
    let inputs = [
        "",
        "plain",
        "&",
        "&&",
        "<<>>",
        "\"\"",
        "&lt;",
        "&amp;lt;",
        "a&b<c>d\"e",
        "Rock & \"Roll\" <tag>",
        "&quot;&amp;&gt;",
    ];
    for s in inputs {
        assert_eq!(unescape(&html_attr(s)), s);
        assert_eq!(unescape(&html_escape(s)), s);
    }
}

#[test]
fn different_inputs_have_different_encodings() {
    let inputs = ["<", "&lt;", "&amp;lt;", ">", "&", "&amp;", "\"", "&quot;", ""];
    for a in inputs {
        for b in inputs {
            if a != b {
                assert_ne!(html_escape(a), html_escape(b));
                assert_ne!(html_attr(a), html_attr(b));
            }
        }
    }
}

#[test]
fn replace_all_agrees_with_the_standard_library() {
    let inputs = ["", "a", "&", "a&b&&c", "&&&", "no match", "é&ü"];
    for s in inputs {
        assert_eq!(replace_all(s, '&', "&amp;"), s.replace('&', "&amp;"));
        assert_eq!(replace_all(s, 'a', ""), s.replace('a', ""));
        assert_eq!(replace_all(s, 'é', "e"), s.replace('é', "e"));
    }
}

#[test]
fn replace_all_keeps_the_other_characters_in_order() {
    assert_eq!(replace_all("x-y-z", '-', "--"), "x--y--z");
    assert_eq!(replace_all("abc", 'b', "b"), "abc");
}
