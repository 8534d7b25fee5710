//! The project records and the data literal that the page embeds for its
//! client-side script.
//!
//! The literal is a list of objects with string fields and a list of tags.
//! Every string is encoded as an HTML attribute value and put between double
//! quotes. Nothing else is encoded: a backslash or a control character in a
//! string goes into the literal as it is.

use crate::escape::{escape_attribute, html_attr};
use vstd::prelude::*;

verus! {

/// One project shown in the project grid. An absent link is written as the
/// empty string. Tags may repeat across projects.
#[derive(Clone, Copy, Debug)]
pub struct Project<'a> {
    pub title: &'a str,
    pub image_url: &'a str,
    pub github_url: &'a str,
    pub demo_url: &'a str,
    pub tags: &'a [&'a str],
}

/// What a [`Project`] holds, as sequences of characters.
pub ghost struct ProjectView {
    pub title: Seq<char>,
    pub image_url: Seq<char>,
    pub github_url: Seq<char>,
    pub demo_url: Seq<char>,
    pub tags: Seq<Seq<char>>,
}

impl<'a> DeepView for Project<'a> {
    type V = ProjectView;

    open spec fn deep_view(&self) -> ProjectView {
        ProjectView {
            title: self.title@,
            image_url: self.image_url@,
            github_url: self.github_url@,
            demo_url: self.demo_url@,
            tags: self.tags.deep_view(),
        }
    }
}

/// The start of an object, up to the value of `title`.
pub const OBJECT_OPEN: &'static str = "{\"title\":\"";

/// From the end of `title` to the value of `image_url`.
pub const IMAGE_FIELD: &'static str = "\",\"image_url\":\"";

/// From the end of `image_url` to the value of `github_url`.
pub const GITHUB_FIELD: &'static str = "\",\"github_url\":\"";

/// From the end of `github_url` to the value of `demo_url`.
pub const DEMO_FIELD: &'static str = "\",\"demo_url\":\"";

/// From the end of `demo_url` to the list of tags.
pub const TAGS_FIELD: &'static str = "\",\"tags\":";

/// The items in order, with a comma between each two.
pub open spec fn comma_joined(items: Seq<Seq<char>>) -> Seq<char>
    decreases items.len(),
{
    if items.len() == 0 {
        Seq::empty()
    } else if items.len() == 1 {
        items[0]
    } else {
        comma_joined(items.drop_last()) + seq![','] + items.last()
    }
}

/// A string of the literal: the encoded text between double quotes.
pub open spec fn quoted(s: Seq<char>) -> Seq<char> {
    seq!['"'] + escape_attribute(s) + seq!['"']
}

/// The list of tags of the literal, such as `["a","b"]`.
pub open spec fn tags_json(tags: Seq<Seq<char>>) -> Seq<char> {
    seq!['['] + comma_joined(tags.map_values(|t: Seq<char>| quoted(t))) + seq![']']
}

/// One object of the literal.
pub open spec fn project_json(p: ProjectView) -> Seq<char> {
    OBJECT_OPEN@ + escape_attribute(p.title) + IMAGE_FIELD@ + escape_attribute(p.image_url)
        + GITHUB_FIELD@ + escape_attribute(p.github_url) + DEMO_FIELD@ + escape_attribute(
        p.demo_url,
    ) + TAGS_FIELD@ + tags_json(p.tags) + seq!['}']
}

/// The whole literal: the list of the objects.
pub open spec fn projects_json(ps: Seq<ProjectView>) -> Seq<char> {
    seq!['['] + comma_joined(ps.map_values(|p: ProjectView| project_json(p))) + seq![']']
}

/// What joining gives when one more item is put at the end.
pub proof fn lemma_comma_joined_push(items: Seq<Seq<char>>, item: Seq<char>)
    ensures
        comma_joined(items.push(item)) == if items.len() == 0 {
            item
        } else {
            comma_joined(items) + seq![','] + item
        },
{
    assert(items.push(item).drop_last() == items);
}

/// Renders a list of tags.
pub fn tags_to_json(tags: &[&str]) -> (out: String)
    ensures
        out@ == tags_json(tags.deep_view()),
{
    let ghost items = tags.deep_view().map_values(|t: Seq<char>| quoted(t));
    let mut out = String::new();
    out.push('[');
    let mut j: usize = 0;
    while j < tags.len()
        invariant
            j <= tags.len(),
            items == tags.deep_view().map_values(|t: Seq<char>| quoted(t)),
            out@ == seq!['['] + comma_joined(items.take(j as int)),
        decreases tags.len() - j,
    {
        proof {
            assert(items.take(j as int + 1) == items.take(j as int).push(items[j as int]));
            lemma_comma_joined_push(items.take(j as int), items[j as int]);
            assert(items[j as int] == quoted(tags[j as int]@));
        }
        if j > 0 {
            out.push(',');
        }
        let tag = html_attr(tags[j]);
        out.push('"');
        out.append(tag.as_str());
        out.push('"');
        j += 1;
    }
    proof {
        assert(items.take(tags.len() as int) == items);
    }
    out.push(']');
    out
}

/// Renders one project as an object of the literal.
pub fn project_to_json(p: &Project) -> (out: String)
    ensures
        out@ == project_json(p.deep_view()),
{
    let mut out = String::from_str(OBJECT_OPEN);
    let title = html_attr(p.title);
    out.append(title.as_str());
    out.append(IMAGE_FIELD);
    let image = html_attr(p.image_url);
    out.append(image.as_str());
    out.append(GITHUB_FIELD);
    let github = html_attr(p.github_url);
    out.append(github.as_str());
    out.append(DEMO_FIELD);
    let demo = html_attr(p.demo_url);
    out.append(demo.as_str());
    out.append(TAGS_FIELD);
    let tags = tags_to_json(p.tags);
    out.append(tags.as_str());
    out.push('}');
    out
}

/// Renders the projects as the data literal that the page embeds.
pub fn projects_to_json(ps: &[Project]) -> (out: String)
    ensures
        out@ == projects_json(ps.deep_view()),
{
    let ghost items = ps.deep_view().map_values(|p: ProjectView| project_json(p));
    let mut out = String::new();
    out.push('[');
    let mut i: usize = 0;
    while i < ps.len()
        invariant
            i <= ps.len(),
            items == ps.deep_view().map_values(|p: ProjectView| project_json(p)),
            out@ == seq!['['] + comma_joined(items.take(i as int)),
        decreases ps.len() - i,
    {
        proof {
            assert(items.take(i as int + 1) == items.take(i as int).push(items[i as int]));
            lemma_comma_joined_push(items.take(i as int), items[i as int]);
            assert(items[i as int] == project_json(ps[i as int].deep_view()));
        }
        if i > 0 {
            out.push(',');
        }
        let object = project_to_json(&ps[i]);
        out.append(object.as_str());
        i += 1;
    }
    proof {
        assert(items.take(ps.len() as int) == items);
    }
    out.push(']');
    out
}

} // verus!
