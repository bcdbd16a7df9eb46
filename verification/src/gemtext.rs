//! Gemtext documents: the nodes that a document is parsed into, and the texts
//! that the parser gets through.

use gmi::gemtext::GemtextNode as ParsedNode;
use vstd::prelude::*;
use crate::text::{chars_of, text_of};

verus! {

/// One parsed line of a Gemtext document. A preformatted block is one node,
/// whatever the number of its lines.
#[derive(Clone, Debug, PartialEq, Eq)]
pub enum GemtextNode {
    /// A line of plain text.
    Text(String),
    /// A link: its target, and its label where it has one.
    Link(String, Option<String>),
    Heading(String),
    SubHeading(String),
    SubSubHeading(String),
    ListItem(String),
    Blockquote(String),
    /// A preformatted block: its body, and its language tag where it has one.
    Preformatted(String, Option<String>),
    EmptyLine,
}

/// A `GemtextNode` as a mathematical value.
pub enum NodeModel {
    Text(Seq<char>),
    Link(Seq<char>, Option<Seq<char>>),
    Heading(Seq<char>),
    SubHeading(Seq<char>),
    SubSubHeading(Seq<char>),
    ListItem(Seq<char>),
    Blockquote(Seq<char>),
    Preformatted(Seq<char>, Option<Seq<char>>),
    EmptyLine,
}

impl View for GemtextNode {
    type V = NodeModel;

    open spec fn view(&self) -> NodeModel {
        match self {
            GemtextNode::Text(t) => NodeModel::Text(t@),
            GemtextNode::Link(target, label) => NodeModel::Link(target@, text_of(*label)),
            GemtextNode::Heading(t) => NodeModel::Heading(t@),
            GemtextNode::SubHeading(t) => NodeModel::SubHeading(t@),
            GemtextNode::SubSubHeading(t) => NodeModel::SubSubHeading(t@),
            GemtextNode::ListItem(t) => NodeModel::ListItem(t@),
            GemtextNode::Blockquote(t) => NodeModel::Blockquote(t@),
            GemtextNode::Preformatted(body, tag) => NodeModel::Preformatted(body@, text_of(*tag)),
            GemtextNode::EmptyLine => NodeModel::EmptyLine,
        }
    }
}

/// A sequence of nodes as mathematical values.
pub open spec fn node_models(nodes: Seq<GemtextNode>) -> Seq<NodeModel> {
    Seq::new(nodes.len(), |i: int| nodes[i]@)
}

/// Where the first line of `s` ends: the position of its first line feed, or
/// its length where it holds none.
pub open spec fn first_line_end(s: Seq<char>) -> int
    decreases s.len(),
{
    if s.len() == 0 || s[0] == '\n' {
        0
    } else {
        1 + first_line_end(s.drop_first())
    }
}

/// `line` without the carriage return at its end, where it has one.
pub open spec fn without_cr(line: Seq<char>) -> Seq<char> {
    if line.len() > 0 && line.last() == '\r' {
        line.drop_last()
    } else {
        line
    }
}

/// The lines of `s`. A line ends at a line feed; a carriage return just
/// before that line feed belongs to the line ending, not to the line. What
/// follows the last line feed is a line of its own unless it is empty.
pub open spec fn text_lines(s: Seq<char>) -> Seq<Seq<char>>
    decreases s.len(),
{
    let k = first_line_end(s);
    if s.len() == 0 {
        Seq::empty()
    } else if 0 <= k < s.len() {
        seq![without_cr(s.subrange(0, k))] + text_lines(s.subrange(k + 1, s.len() as int))
    } else {
        seq![s]
    }
}

/// A line that is nothing but the first character of a link, a list item or
/// a quote.
pub open spec fn is_bare_marker(line: Seq<char>) -> bool {
    line.len() == 1 && (line[0] == '=' || line[0] == '*' || line[0] == '>')
}

/// A line that opens or closes a preformatted block: it starts with three
/// backticks.
pub open spec fn is_fence(line: Seq<char>) -> bool {
    line.len() >= 3 && line[0] == '`' && line[1] == '`' && line[2] == '`'
}

/// Whether the parser gets through `lines`, starting inside a preformatted
/// block (`fenced`) or outside one. It stops at a bare marker outside a
/// preformatted block; every fence line takes it into such a block or out of
/// it.
pub open spec fn lines_parse(lines: Seq<Seq<char>>, fenced: bool) -> bool
    decreases lines.len(),
{
    if lines.len() == 0 {
        true
    } else if !fenced && is_bare_marker(lines[0]) {
        false
    } else {
        lines_parse(lines.drop_first(), fenced != is_fence(lines[0]))
    }
}

/// The texts that parse as Gemtext: those without a line, outside every
/// preformatted block, that is exactly `=`, `*` or `>`.
pub open spec fn valid_gemtext(text: Seq<char>) -> bool {
    lines_parse(text_lines(text), false)
}

/// The first line of `s` ends at `k` where no line feed stands before `k` and
/// one stands at `k`, or `s` ends there.
pub proof fn lemma_first_line_end(s: Seq<char>, k: int)
    requires
        0 <= k <= s.len(),
        forall|j: int| 0 <= j < k ==> s[j] != '\n',
        k < s.len() ==> s[k] == '\n',
    ensures
        first_line_end(s) == k,
    decreases k,
{
    if k > 0 {
        let rest = s.drop_first();
        assert forall|j: int| 0 <= j < k - 1 implies rest[j] != '\n' by {
            assert(rest[j] == s[j + 1]);
        }
        lemma_first_line_end(rest, k - 1);
    }
}

/// The empty text parses.
pub proof fn lemma_empty_text_is_valid()
    ensures
        valid_gemtext(Seq::<char>::empty()),
{
}

/// Whether the characters of `v` from `start` up to `end` are a bare marker.
fn range_is_bare_marker(v: &Vec<char>, start: usize, end: usize) -> (b: bool)
    requires
        start <= end <= v.len(),
    ensures
        b == is_bare_marker(v@.subrange(start as int, end as int)),
{
    end - start == 1 && (v[start] == '=' || v[start] == '*' || v[start] == '>')
}

/// Whether the characters of `v` from `start` up to `end` are a fence.
fn range_is_fence(v: &Vec<char>, start: usize, end: usize) -> (b: bool)
    requires
        start <= end <= v.len(),
    ensures
        b == is_fence(v@.subrange(start as int, end as int)),
{
    end - start >= 3 && v[start] == '`' && v[start + 1] == '`' && v[start + 2] == '`'
}

/// Whether `text` parses as Gemtext.
pub fn is_valid_gemtext(text: &str) -> (b: bool)
    ensures
        b == valid_gemtext(text@),
{
    let v = chars_of(text);
    let n: usize = v.len();
    let mut start: usize = 0;
    let mut fenced = false;
    let mut i: usize = 0;
    assert(v@.subrange(0, n as int) =~= text@);
    while i < n
        invariant
            n == v.len(),
            v@ == text@,
            start <= i <= n,
            forall|j: int| start <= j < i ==> v@[j] != '\n',
            valid_gemtext(text@) == lines_parse(
                text_lines(v@.subrange(start as int, n as int)),
                fenced,
            ),
        decreases n - i,
    {
        if v[i] == '\n' {
            let end: usize = if i > start && v[i - 1] == '\r' {
                i - 1
            } else {
                i
            };
            let bare = range_is_bare_marker(&v, start, end);
            let fence = range_is_fence(&v, start, end);
            proof {
                let tail = v@.subrange(start as int, n as int);
                let k = i - start;
                assert forall|j: int| 0 <= j < k implies tail[j] != '\n' by {
                    assert(tail[j] == v@[start + j]);
                }
                lemma_first_line_end(tail, k);
                assert(tail.subrange(0, k) =~= v@.subrange(start as int, i as int));
                assert(tail.subrange(k + 1, tail.len() as int) =~= v@.subrange(i + 1, n as int));
                assert(without_cr(v@.subrange(start as int, i as int)) =~= v@.subrange(
                    start as int,
                    end as int,
                ));
                let lines = text_lines(tail);
                assert(lines[0] == v@.subrange(start as int, end as int));
                assert(lines.drop_first() =~= text_lines(v@.subrange(i + 1, n as int)));
            }
            if !fenced && bare {
                return false;
            }
            if fence {
                fenced = !fenced;
            }
            start = i + 1;
        }
        i += 1;
    }
    proof {
        let tail = v@.subrange(start as int, n as int);
        if start < n {
            assert forall|j: int| 0 <= j < tail.len() implies tail[j] != '\n' by {
                assert(tail[j] == v@[start + j]);
            }
            lemma_first_line_end(tail, tail.len() as int);
            let lines = text_lines(tail);
            assert(lines =~= seq![tail]);
            assert(lines.drop_first() =~= Seq::<Seq<char>>::empty());
            assert(lines_parse(lines.drop_first(), fenced != is_fence(lines[0])));
        }
    }
    if start < n {
        let bare = range_is_bare_marker(&v, start, n);
        !(!fenced && bare)
    } else {
        true
    }
}

/// The nodes that parsing `text` gives, in the order of the lines. It stands
/// for the result of `gmi::gemtext::parse_gemtext`, which depends on the text
/// alone.
pub uninterp spec fn parsed_gemtext(text: Seq<char>) -> Seq<NodeModel>;

/// Calls `gmi::gemtext::parse_gemtext` and hands back its nodes, each in the
/// variant and with the fields that it came in. Trusted: that the call
/// returns on every text that `valid_gemtext` admits (on a bare marker outside
/// a preformatted block the parser stops with a panic), and that the nodes
/// depend on the text alone, so that they are `parsed_gemtext(text@)`.
#[verifier::external_body]
pub(crate) fn parse_gemtext(text: &str) -> (nodes: Vec<GemtextNode>)
    requires
        valid_gemtext(text@),
    ensures
        node_models(nodes@) == parsed_gemtext(text@),
{
    gmi::gemtext::parse_gemtext(text).into_iter().map(|node| match node {
        ParsedNode::Text(t) => GemtextNode::Text(t),
        ParsedNode::Link(target, label) => GemtextNode::Link(target, label),
        ParsedNode::Heading(t) => GemtextNode::Heading(t),
        ParsedNode::SubHeading(t) => GemtextNode::SubHeading(t),
        ParsedNode::SubSubHeading(t) => GemtextNode::SubSubHeading(t),
        ParsedNode::ListItem(t) => GemtextNode::ListItem(t),
        ParsedNode::Blockquote(t) => GemtextNode::Blockquote(t),
        ParsedNode::Preformatted(body, tag) => GemtextNode::Preformatted(body, tag),
        ParsedNode::EmptyLine => GemtextNode::EmptyLine,
    }).collect()
}

} // verus!
