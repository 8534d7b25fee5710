use portfolio::projects::{project_to_json, projects_to_json, tags_to_json, Project};

#[test]
fn no_projects_give_an_empty_list() {
    assert_eq!(projects_to_json(&[]), "[]");
}

#[test]
fn no_tags_give_an_empty_list() {
    assert_eq!(tags_to_json(&[]), "[]");
}

#[test]
fn tags_are_quoted_and_separated_by_commas() {
    assert_eq!(tags_to_json(&["a"]), "[\"a\"]");
    assert_eq!(tags_to_json(&["a", "b"]), "[\"a\",\"b\"]");
    assert_eq!(
        tags_to_json(&["rust", "3d", "rendering"]),
        "[\"rust\",\"3d\",\"rendering\"]"
    );
}

#[test]
fn one_project_is_rendered_as_an_object() {
    let p = Project {
        title: "Path Tracer",
        image_url: "https://picsum.photos/seed/pathtracer/800/600",
        github_url: "https://github.com/you/pathtracer",
        demo_url: "https://example.com/pathtracer",
        tags: &["rust", "3d", "rendering"],
    };
    let expected = "{\"title\":\"Path Tracer\",\"image_url\":\"https://picsum.photos/seed/pathtracer/800/600\",\"github_url\":\"https://github.com/you/pathtracer\",\"demo_url\":\"https://example.com/pathtracer\",\"tags\":[\"rust\",\"3d\",\"rendering\"]}";
    assert_eq!(project_to_json(&p), expected);
    assert_eq!(projects_to_json(&[p]), format!("[{}]", expected));
}

#[test]
fn projects_are_separated_by_commas() {
    let a = Project {
        title: "ESP32-CAM",
        image_url: "a.png",
        github_url: "https://github.com/you/esp32-cam",
        demo_url: "",
        tags: &["embedded", "cv"],
    };
    let b = Project {
        title: "DSP Toys",
        image_url: "b.png",
        github_url: "",
        demo_url: "",
        tags: &[],
    };
    assert_eq!(
        projects_to_json(&[a, b]),
        "[{\"title\":\"ESP32-CAM\",\"image_url\":\"a.png\",\"github_url\":\"https://github.com/you/esp32-cam\",\"demo_url\":\"\",\"tags\":[\"embedded\",\"cv\"]},{\"title\":\"DSP Toys\",\"image_url\":\"b.png\",\"github_url\":\"\",\"demo_url\":\"\",\"tags\":[]}]"
    );
}

#[test]
fn strings_are_escaped_as_attribute_values() {
    let p = Project {
        title: "Rock & \"Roll\" <tag>",
        image_url: "i.png?a=1&b=2",
        github_url: "",
        demo_url: "",
        tags: &["c++ & <templates>", "\"quoted\""],
    };
    assert_eq!(
        project_to_json(&p),
        "{\"title\":\"Rock &amp; &quot;Roll&quot; &lt;tag&gt;\",\"image_url\":\"i.png?a=1&amp;b=2\",\"github_url\":\"\",\"demo_url\":\"\",\"tags\":[\"c++ &amp; &lt;templates&gt;\",\"&quot;quoted&quot;\"]}"
    );
}

#[test]
fn backslashes_and_control_characters_are_not_escaped() {
    let p = Project {
        title: "a\\b\nc",
        image_url: "",
        github_url: "",
        demo_url: "",
        tags: &["t\\"],
    };
    assert_eq!(
        project_to_json(&p),
        "{\"title\":\"a\\b\nc\",\"image_url\":\"\",\"github_url\":\"\",\"demo_url\":\"\",\"tags\":[\"t\\\"]}"
    );
}
