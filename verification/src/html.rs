//! Gemtext as HTML: one fragment for each node, in the order of the nodes,
//! with every link rewritten by the kind of its target.

use vstd::prelude::*;
use crate::gemtext::{
    node_models, parse_gemtext, parsed_gemtext, valid_gemtext, GemtextNode, NodeModel,
};
use crate::text::{contains, has_substring, remove_first, text_of, without_first};

verus! {

/// How the target of a link is addressed.
#[derive(Clone, Copy, Debug, PartialEq, Eq, Structural)]
pub enum LinkKind {
    /// A link into the web: the target holds `http://` or `https://`.
    Web,
    /// A Gemini address in full: the target holds `gemini://`.
    AbsoluteGemini,
    /// Anything else: a path relative to the page that holds the link.
    Relative,
}

/// The kind of a link, by what its target holds anywhere in it. A web scheme
/// decides before a Gemini scheme.
pub open spec fn link_kind(target: Seq<char>) -> LinkKind {
    if has_substring(target, "http://"@) || has_substring(target, "https://"@) {
        LinkKind::Web
    } else if has_substring(target, "gemini://"@) {
        LinkKind::AbsoluteGemini
    } else {
        LinkKind::Relative
    }
}

/// Where the anchor of a link points. A web link points at its target as it
/// stands. A Gemini address loses its leftmost `gemini:/` and is routed
/// through the gateway. A relative target is routed through the gateway below
/// the path of the page that was asked for.
pub open spec fn link_href(target: Seq<char>, request_path: Seq<char>) -> Seq<char> {
    match link_kind(target) {
        LinkKind::Web => target,
        LinkKind::AbsoluteGemini => "/gemini"@ + without_first(target, "gemini:/"@),
        LinkKind::Relative => "/gemini"@ + request_path + "/"@ + target,
    }
}

/// The text of a link: its label, or nothing where it has none.
pub open spec fn label_text(label: Option<Seq<char>>) -> Seq<char> {
    match label {
        Some(text) => text,
        None => Seq::empty(),
    }
}

/// The fragment for a link: a paragraph around the anchor; after the anchor
/// of a relative link, its target once more in round brackets.
pub open spec fn link_html(
    target: Seq<char>,
    label: Option<Seq<char>>,
    request_path: Seq<char>,
) -> Seq<char> {
    let anchor = "<p><a href=\""@ + link_href(target, request_path) + "\">"@ + label_text(label)
        + "</a>"@;
    match link_kind(target) {
        LinkKind::Relative => anchor + " ("@ + target + ")</p>"@,
        _ => anchor + "</p>"@,
    }
}

/// The fragment for a preformatted block; its language tag, where it has
/// one, becomes the class of the code element.
pub open spec fn preformatted_html(body: Seq<char>, tag: Option<Seq<char>>) -> Seq<char> {
    match tag {
        Some(language) => "<pre><code class=\"language-"@ + language + "\">"@ + body
            + "</code></pre>"@,
        None => "<pre><code>"@ + body + "</code></pre>"@,
    }
}

/// The fragment for one node. Text goes in as it stands, without escaping.
pub open spec fn node_html(node: NodeModel, request_path: Seq<char>) -> Seq<char> {
    match node {
        NodeModel::Text(t) => "<p>"@ + t + "</p>"@,
        NodeModel::Link(target, label) => link_html(target, label, request_path),
        NodeModel::Heading(t) => "<h1>"@ + t + "</h1>"@,
        NodeModel::SubHeading(t) => "<h2>"@ + t + "</h2>"@,
        NodeModel::SubSubHeading(t) => "<h3>"@ + t + "</h3>"@,
        NodeModel::ListItem(t) => "<p>&#x2022 "@ + t + "</p>"@,
        NodeModel::Blockquote(t) => "<blockquote>"@ + t + "</blockquote>"@,
        NodeModel::Preformatted(body, tag) => preformatted_html(body, tag),
        NodeModel::EmptyLine => Seq::empty(),
    }
}

/// The fragments of all nodes, one after the other in the order of the
/// nodes, with nothing between them.
pub open spec fn document_html(nodes: Seq<NodeModel>, request_path: Seq<char>) -> Seq<char>
    decreases nodes.len(),
{
    if nodes.len() == 0 {
        Seq::empty()
    } else {
        document_html(nodes.drop_last(), request_path) + node_html(nodes.last(), request_path)
    }
}

/// The HTML for the Gemtext document `text`, asked for under `request_path`.
pub open spec fn translation(text: Seq<char>, request_path: Seq<char>) -> Seq<char> {
    document_html(parsed_gemtext(text), request_path)
}

/// The HTML of two runs of nodes, one after the other, is the HTML of the
/// first followed by the HTML of the second.
pub proof fn lemma_document_html_concat(
    front: Seq<NodeModel>,
    back: Seq<NodeModel>,
    request_path: Seq<char>,
)
    ensures
        document_html(front + back, request_path) == document_html(front, request_path)
            + document_html(back, request_path),
    decreases back.len(),
{
    if back.len() == 0 {
        assert(front + back =~= front);
        assert(document_html(front, request_path) + Seq::<char>::empty() =~= document_html(
            front,
            request_path,
        ));
    } else {
        assert((front + back).drop_last() =~= front + back.drop_last());
        assert((front + back).last() == back.last());
        lemma_document_html_concat(front, back.drop_last(), request_path);
        assert(document_html(front, request_path) + document_html(back.drop_last(), request_path)
            + node_html(back.last(), request_path) =~= document_html(front, request_path) + (
        document_html(back.drop_last(), request_path) + node_html(back.last(), request_path)));
    }
}

/// A document of nothing but empty lines comes to the empty text.
pub proof fn lemma_empty_lines_give_nothing(nodes: Seq<NodeModel>, request_path: Seq<char>)
    requires
        forall|i: int| 0 <= i < nodes.len() ==> nodes[i] is EmptyLine,
    ensures
        document_html(nodes, request_path) == Seq::<char>::empty(),
    decreases nodes.len(),
{
    if nodes.len() > 0 {
        let front = nodes.drop_last();
        assert forall|i: int| 0 <= i < front.len() implies front[i] is EmptyLine by {
            assert(front[i] == nodes[i]);
        }
        lemma_empty_lines_give_nothing(front, request_path);
        assert(nodes.last() is EmptyLine);
        assert(Seq::<char>::empty() + Seq::<char>::empty() =~= Seq::<char>::empty());
    }
}

/// An empty line adds no character to a document, wherever it stands in it.
pub proof fn lemma_empty_line_adds_nothing(
    front: Seq<NodeModel>,
    back: Seq<NodeModel>,
    request_path: Seq<char>,
)
    ensures
        node_html(NodeModel::EmptyLine, request_path).len() == 0,
        document_html(front + seq![NodeModel::EmptyLine] + back, request_path) == document_html(
            front + back,
            request_path,
        ),
{
    let line = seq![NodeModel::EmptyLine];
    assert forall|i: int| 0 <= i < line.len() implies line[i] is EmptyLine by {}
    lemma_empty_lines_give_nothing(line, request_path);
    lemma_document_html_concat(front, line, request_path);
    lemma_document_html_concat(front + line, back, request_path);
    lemma_document_html_concat(front, back, request_path);
    assert(document_html(front, request_path) + Seq::<char>::empty() =~= document_html(
        front,
        request_path,
    ));
}

/// Translating one text under one path gives one result: nothing else
/// bears on it.
pub proof fn lemma_translation_repeats(
    text: Seq<char>,
    request_path: Seq<char>,
    again_text: Seq<char>,
    again_path: Seq<char>,
)
    requires
        text == again_text,
        request_path == again_path,
    ensures
        translation(text, request_path) == translation(again_text, again_path),
{
}

/// The kind of a link.
pub fn classify_link(target: &str) -> (kind: LinkKind)
    ensures
        kind == link_kind(target@),
{
    if contains(target, "http://") || contains(target, "https://") {
        LinkKind::Web
    } else if contains(target, "gemini://") {
        LinkKind::AbsoluteGemini
    } else {
        LinkKind::Relative
    }
}

/// The fragment for a link.
pub fn link_to_html(target: &str, label: &Option<String>, request_path: &str) -> (out: String)
    ensures
        out@ == link_html(target@, text_of(*label), request_path@),
{
    let kind = classify_link(target);
    let mut out = "<p><a href=\"".to_owned();
    match kind {
        LinkKind::Web => {
            out.append(target);
        },
        LinkKind::AbsoluteGemini => {
            let mut href = "/gemini".to_owned();
            let rest = remove_first(target, "gemini:/");
            href.append(rest.as_str());
            out.append(href.as_str());
        },
        LinkKind::Relative => {
            let mut href = "/gemini".to_owned();
            href.append(request_path);
            href.append("/");
            href.append(target);
            out.append(href.as_str());
        },
    }
    out.append("\">");
    match label {
        Some(text) => {
            out.append(text.as_str());
        },
        None => {
            assert(out@ + Seq::<char>::empty() =~= out@);
        },
    }
    out.append("</a>");
    match kind {
        LinkKind::Relative => {
            out.append(" (");
            out.append(target);
            out.append(")</p>");
        },
        _ => {
            out.append("</p>");
        },
    }
    out
}

/// `body` between `open` and `close`.
fn wrapped(open: &str, body: &str, close: &str) -> (out: String)
    ensures
        out@ == open@ + body@ + close@,
{
    let mut out = open.to_owned();
    out.append(body);
    out.append(close);
    out
}

/// The fragment for one node.
pub fn node_to_html(node: &GemtextNode, request_path: &str) -> (out: String)
    ensures
        out@ == node_html(node@, request_path@),
{
    match node {
        GemtextNode::Text(t) => wrapped("<p>", t.as_str(), "</p>"),
        GemtextNode::Link(target, label) => link_to_html(target.as_str(), label, request_path),
        GemtextNode::Heading(t) => wrapped("<h1>", t.as_str(), "</h1>"),
        GemtextNode::SubHeading(t) => wrapped("<h2>", t.as_str(), "</h2>"),
        GemtextNode::SubSubHeading(t) => wrapped("<h3>", t.as_str(), "</h3>"),
        GemtextNode::ListItem(t) => wrapped("<p>&#x2022 ", t.as_str(), "</p>"),
        GemtextNode::Blockquote(t) => wrapped("<blockquote>", t.as_str(), "</blockquote>"),
        GemtextNode::Preformatted(body, tag) => match tag {
            Some(language) => {
                let mut out = "<pre><code class=\"language-".to_owned();
                out.append(language.as_str());
                out.append("\">");
                out.append(body.as_str());
                out.append("</code></pre>");
                out
            },
            None => wrapped("<pre><code>", body.as_str(), "</code></pre>"),
        },
        GemtextNode::EmptyLine => String::new(),
    }
}

/// The HTML for a parsed document: the fragments of its nodes, in their
/// order.
pub fn nodes_to_html(nodes: &Vec<GemtextNode>, request_path: &str) -> (out: String)
    ensures
        out@ == document_html(node_models(nodes@), request_path@),
{
    let mut out = String::new();
    let n: usize = nodes.len();
    let ghost models = node_models(nodes@);
    let mut i: usize = 0;
    while i < n
        invariant
            n == nodes.len(),
            i <= n,
            models == node_models(nodes@),
            out@ == document_html(models.take(i as int), request_path@),
        decreases n - i,
    {
        let fragment = node_to_html(&nodes[i], request_path);
        proof {
            let upto = models.take(i + 1);
            assert(upto.drop_last() =~= models.take(i as int));
            assert(upto.last() == nodes@[i as int]@);
        }
        out.append(fragment.as_str());
        i += 1;
    }
    assert(models.take(n as int) =~= models);
    out
}

/// The HTML for the Gemtext document `text`, asked for under `request_path`.
pub fn gemtext_to_html(text: &str, request_path: &str) -> (out: String)
    requires
        valid_gemtext(text@),
    ensures
        out@ == translation(text@, request_path@),
{
    let nodes = parse_gemtext(text);
    nodes_to_html(&nodes, request_path)
}

} // verus!
