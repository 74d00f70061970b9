//! How pages are rendered: the document as the engine reads it, how the
//! source of a page becomes a document, the title and the text that the
//! engine takes from a document, the state of the engine, and its
//! configuration.
//!
//! A document is held as the list of its nodes in document order: each node
//! comes before its children, the children in their order, and every node
//! knows how deep it stands below the root. The first child of a node, if it
//! has one, is thus the node that follows it, one level deeper.
//!
//! The tree of a document is built by html5ever. What reaches this crate is
//! the list of its nodes in document order, each with the number of its
//! children; the depths are counted here.

use crate::domain::errors::{BrowserError, ErrorView};
use crate::domain::value_objects::{UrlView, ValidatedUrl};
use crate::text::{str_eq, trim, trimmed};
use html5ever::parse_document;
use html5ever::tendril::TendrilSink;
use markup5ever_rcdom::{NodeData, RcDom};
use vstd::prelude::*;

verus! {

// ---------------------------------------------------------------------------
// Documents
// ---------------------------------------------------------------------------
/// What a node of a document is.
#[derive(Debug)]
pub enum NodeKind {
    /// The root.
    Document,
    /// An element; holds its name, as `title` or `p`.
    Element(String),
    /// A run of text; holds the text.
    Text(String),
    /// Anything else: a comment, a doctype, a processing instruction.
    Other,
}

/// One node of a document.
#[derive(Debug)]
pub struct DomNode {
    /// How many ancestors the node has.
    pub depth: usize,
    pub kind: NodeKind,
}

/// A [`NodeKind`] with its texts as sequences of characters.
pub enum NodeKindView {
    Document,
    Element(Seq<char>),
    Text(Seq<char>),
    Other,
}

/// A [`DomNode`] with its texts as sequences of characters.
pub struct DomNodeView {
    pub depth: nat,
    pub kind: NodeKindView,
}

impl View for NodeKind {
    type V = NodeKindView;

    open spec fn view(&self) -> NodeKindView {
        match self {
            NodeKind::Document => NodeKindView::Document,
            NodeKind::Element(name) => NodeKindView::Element(name@),
            NodeKind::Text(text) => NodeKindView::Text(text@),
            NodeKind::Other => NodeKindView::Other,
        }
    }
}

impl View for DomNode {
    type V = DomNodeView;

    open spec fn view(&self) -> DomNodeView {
        DomNodeView { depth: self.depth as nat, kind: self.kind@ }
    }
}

/// The views of the nodes in `nodes`, in order.
pub open spec fn node_views(nodes: Seq<DomNode>) -> Seq<DomNodeView> {
    nodes.map_values(|n: DomNode| n@)
}

// ---------------------------------------------------------------------------
// Parsing
// ---------------------------------------------------------------------------
/// What the parser reports of one node: what it is, and how many children
/// it has.
#[derive(Debug)]
pub struct NodeRecord {
    pub kind: NodeKind,
    pub children: usize,
}

/// A [`NodeRecord`] with its texts as sequences of characters.
pub struct NodeRecordView {
    pub kind: NodeKindView,
    pub children: usize,
}

impl View for NodeRecord {
    type V = NodeRecordView;

    open spec fn view(&self) -> NodeRecordView {
        NodeRecordView { kind: self.kind@, children: self.children }
    }
}

/// The views of the records in `records`, in order.
pub open spec fn record_views(records: Seq<NodeRecord>) -> Seq<NodeRecordView> {
    records.map_values(|r: NodeRecord| r@)
}

/// The nodes of the document that the parser makes of the source `html`,
/// in document order, each with the number of its children.
pub uninterp spec fn html_nodes(html: Seq<char>) -> Seq<NodeRecordView>;

/// The longest source that is handed to the parser, counted in characters.
pub const MAX_SOURCE_LEN: usize = 0x0FFF_FFFF;

/// `html5ever::parse_document`, fed the whole source at once, builds the
/// tree of the document in a `markup5ever_rcdom::RcDom`. It takes any text
/// as a document, but it keeps text in buffers whose length is counted in
/// 32 bits and whose size doubles as they grow, and stops the program where
/// one would overflow. A character of the source takes at most four bytes
/// there, so a source of more than [`MAX_SOURCE_LEN`] characters is left
/// out.
///
/// This lists the nodes of the tree from the root on, each node before its
/// children and the children in their order, and notes of each node what it
/// is and how many children it has. The list is a function of the source,
/// known by the name [`html_nodes`].
#[verifier::external_body]
fn list_html(html: &str) -> (records: Vec<NodeRecord>)
    requires
        html@.len() <= MAX_SOURCE_LEN,
    ensures
        record_views(records@) == html_nodes(html@),
{
    let dom = parse_document(RcDom::default(), Default::default()).one(html);
    let mut records = Vec::new();
    let mut pending = vec![dom.document.clone()];
    while let Some(node) = pending.pop() {
        let kind = match &node.data {
            NodeData::Document => NodeKind::Document,
            NodeData::Element { name, .. } => NodeKind::Element(name.local.to_string()),
            NodeData::Text { contents } => NodeKind::Text(contents.borrow().to_string()),
            _ => NodeKind::Other,
        };
        records.push(NodeRecord { kind, children: node.children.borrow().len() });
        pending.extend(node.children.borrow().iter().rev().cloned());
    }
    records
}

/// `open` without the counts at its end that are spent: that are zero.
pub open spec fn without_spent(open: Seq<usize>) -> Seq<usize>
    decreases open.len(),
{
    if open.len() > 0 && open.last() == 0 {
        without_spent(open.drop_last())
    } else {
        open
    }
}

/// Where a list of nodes stands after its first `n` nodes: for each node
/// that may still get children, from the root down, how many of its
/// children are still to come. The node that comes next is a child of the
/// last of them that is not spent, and counts against it.
pub open spec fn open_after(records: Seq<NodeRecordView>, n: int) -> Seq<usize>
    decreases n,
{
    if n <= 0 {
        Seq::empty()
    } else {
        let above = without_spent(open_after(records, n - 1));
        let counted = if above.len() > 0 {
            above.update(above.len() - 1, (above.last() - 1) as usize)
        } else {
            above
        };
        counted.push(records[n - 1].children)
    }
}

/// How deep the node at index `i` of a list stands: how many nodes before
/// it still await children when it comes.
pub open spec fn depth_of(records: Seq<NodeRecordView>, i: int) -> nat {
    without_spent(open_after(records, i)).len()
}

/// The first `n` nodes of a list, each with its depth.
pub open spec fn nodes_among(records: Seq<NodeRecordView>, n: int) -> Seq<DomNodeView>
    decreases n,
{
    if n <= 0 {
        Seq::empty()
    } else {
        nodes_among(records, n - 1).push(
            DomNodeView { depth: depth_of(records, n - 1), kind: records[n - 1].kind },
        )
    }
}

/// The document that a list of nodes describes: its nodes in document
/// order, each with its depth.
pub open spec fn nodes_of(records: Seq<NodeRecordView>) -> Seq<DomNodeView> {
    nodes_among(records, records.len() as int)
}

/// The document that `records` describes.
pub fn document_of(records: Vec<NodeRecord>) -> (nodes: Vec<DomNode>)
    ensures
        node_views(nodes@) == nodes_of(record_views(records@)),
{
    let ghost listed = record_views(records@);
    let mut nodes: Vec<DomNode> = Vec::new();
    let mut open: Vec<usize> = Vec::new();
    let mut done: usize = 0;
    let count = records.len();
    assert(node_views(nodes@) == Seq::<DomNodeView>::empty());
    for record in it: records
        invariant
            listed == record_views(it.seq()),
            it.seq().len() == count,
            done == it.index(),
            open@ == open_after(listed, done as int),
            open.len() <= done,
            node_views(nodes@) == nodes_among(listed, done as int),
    {
        assert(listed[done as int] == record@);
        let ghost before = open@;
        while open.len() > 0 && open[open.len() - 1] == 0
            invariant
                without_spent(open@) == without_spent(before),
                open.len() <= done,
            decreases open.len(),
        {
            assert(open@.drop_last() == open@.subrange(0, open.len() - 1));
            open.pop();
        }
        assert(open@ == without_spent(before));
        let depth = open.len();
        if depth > 0 {
            let left = open[depth - 1];
            open.set(depth - 1, left - 1);
        }
        open.push(record.children);
        let ghost earlier = nodes@;
        let node = DomNode { depth, kind: record.kind };
        nodes.push(node);
        assert(node_views(nodes@) == node_views(earlier).push(node@));
        done = done + 1;
    }
    nodes
}

/// The failure that is reported for a source that is too long to parse.
pub open spec fn too_long() -> ErrorView {
    ErrorView::RenderFailure("page source too long"@)
}

/// Parses the source `html` into a document. A source of more than
/// [`MAX_SOURCE_LEN`] characters is not parsed: that is a failure.
pub fn parse_html(html: &str) -> (r: Result<Vec<DomNode>, BrowserError>)
    ensures
        match r {
            Ok(nodes) => html@.len() <= MAX_SOURCE_LEN && node_views(nodes@) == nodes_of(
                html_nodes(html@),
            ),
            Err(e) => html@.len() > MAX_SOURCE_LEN && e@ == too_long(),
        },
{
    if html.unicode_len() > MAX_SOURCE_LEN {
        Err(BrowserError::RenderFailure(String::from_str("page source too long")))
    } else {
        Ok(document_of(list_html(html)))
    }
}

// ---------------------------------------------------------------------------
// Title and text
// ---------------------------------------------------------------------------
/// The node at index `i` is a `title` element whose first child is text.
pub open spec fn names_title(nodes: Seq<DomNodeView>, i: int) -> bool {
    &&& 0 <= i && i + 1 < nodes.len()
    &&& nodes[i].kind == NodeKindView::Element("title"@)
    &&& nodes[i + 1].depth == nodes[i].depth + 1
    &&& nodes[i + 1].kind is Text
}

/// The title that the first `n` nodes give to the document, if any: the text
/// under the last of them that is a `title` element with text as its first
/// child.
pub open spec fn title_among(nodes: Seq<DomNodeView>, n: int) -> Option<Seq<char>>
    decreases n,
{
    if n <= 0 {
        None
    } else if names_title(nodes, n - 1) {
        Some(nodes[n].kind->Text_0)
    } else {
        title_among(nodes, n - 1)
    }
}

/// The title of the document: the one that its nodes give it, or
/// "Untitled".
pub open spec fn title_of(nodes: Seq<DomNodeView>) -> Seq<char> {
    match title_among(nodes, nodes.len() as int) {
        Some(title) => title,
        None => "Untitled"@,
    }
}

/// Two spaces for each level of depth.
pub open spec fn indent(depth: nat) -> Seq<char>
    decreases depth,
{
    if depth == 0 {
        Seq::empty()
    } else {
        indent((depth - 1) as nat) + "  "@
    }
}

/// The line that a node contributes to the text of a document: for an
/// element its name in angle brackets, for text that is not all white space
/// the text without the white space at its ends, each indented by the depth
/// of the node and ended by a line feed; nothing for any other node.
pub open spec fn line_of(node: DomNodeView) -> Seq<char> {
    match node.kind {
        NodeKindView::Element(name) => indent(node.depth) + "<"@ + name + ">\n"@,
        NodeKindView::Text(text) => if trimmed(text).len() == 0 {
            Seq::empty()
        } else {
            indent(node.depth) + trimmed(text) + "\n"@
        },
        _ => Seq::empty(),
    }
}

/// The lines of the first `n` nodes, one after the other.
pub open spec fn text_among(nodes: Seq<DomNodeView>, n: int) -> Seq<char>
    decreases n,
{
    if n <= 0 {
        Seq::empty()
    } else {
        text_among(nodes, n - 1) + line_of(nodes[n - 1])
    }
}

/// The document as indented text: the lines of all its nodes.
pub open spec fn text_of(nodes: Seq<DomNodeView>) -> Seq<char> {
    text_among(nodes, nodes.len() as int)
}

/// The title of the document `nodes`.
pub fn extract_title(nodes: &Vec<DomNode>) -> (title: String)
    ensures
        title@ == title_of(node_views(nodes@)),
{
    let ghost views = node_views(nodes@);
    let mut title: Option<String> = None;
    let mut i: usize = 0;
    while i < nodes.len()
        invariant
            i <= nodes.len(),
            views == node_views(nodes@),
            match title {
                Some(t) => title_among(views, i as int) == Some(t@),
                None => title_among(views, i as int) is None,
            },
        decreases nodes.len() - i,
    {
        assert(views[i as int] == nodes@[i as int]@);
        let mut found: Option<String> = None;
        if let NodeKind::Element(name) = &nodes[i].kind {
            if str_eq(name.as_str(), "title") && i + 1 < nodes.len() && nodes[i].depth
                < usize::MAX && nodes[i + 1].depth == nodes[i].depth + 1 {
                assert(views[i + 1] == nodes@[i + 1]@);
                if let NodeKind::Text(text) = &nodes[i + 1].kind {
                    found = Some(text.clone());
                }
            }
        }
        assert(found is Some <==> names_title(views, i as int)) by {
            if i + 1 < nodes.len() {
                assert(views[i + 1] == nodes@[i + 1]@);
            }
        }
        if let Some(text) = found {
            title = Some(text);
        }
        i = i + 1;
    }
    match title {
        Some(t) => t,
        None => String::from_str("Untitled"),
    }
}

/// Two spaces for each level of depth.
fn indentation(depth: usize) -> (spaces: String)
    ensures
        spaces@ == indent(depth as nat),
{
    let mut spaces = String::new();
    let mut i: usize = 0;
    while i < depth
        invariant
            i <= depth,
            spaces@ == indent(i as nat),
        decreases depth - i,
    {
        spaces.append("  ");
        i = i + 1;
    }
    spaces
}

/// The document `nodes` as indented text.
pub fn render_to_text(nodes: &Vec<DomNode>) -> (text: String)
    ensures
        text@ == text_of(node_views(nodes@)),
{
    let ghost views = node_views(nodes@);
    let mut output = String::new();
    let mut i: usize = 0;
    while i < nodes.len()
        invariant
            i <= nodes.len(),
            views == node_views(nodes@),
            output@ == text_among(views, i as int),
        decreases nodes.len() - i,
    {
        assert(views[i as int] == nodes@[i as int]@);
        let ghost before = output@;
        match &nodes[i].kind {
            NodeKind::Element(name) => {
                let line = indentation(nodes[i].depth).concat("<").concat(name.as_str()).concat(
                    ">\n",
                );
                output.append(line.as_str());
            },
            NodeKind::Text(text) => {
                let inner = trim(text.as_str());
                if !inner.as_str().is_empty() {
                    let line = indentation(nodes[i].depth).concat(inner.as_str()).concat("\n");
                    output.append(line.as_str());
                }
            },
            _ => {},
        }
        assert(output@ == before + line_of(views[i as int]));
        i = i + 1;
    }
    output
}

// ---------------------------------------------------------------------------
// The engine
// ---------------------------------------------------------------------------
/// What a [`ServoRenderer`] holds.
pub struct RendererView {
    pub url: Option<UrlView>,
    pub html: Seq<char>,
    pub nodes: Seq<DomNodeView>,
    pub title: Seq<char>,
}

/// The state of the rendering engine: the page that was loaded last, as
/// source and as document, and its title. The program fetches the source of
/// a page; the engine parses it, keeps both, and reads title and text from
/// the document.
pub struct ServoRenderer {
    current_url: Option<ValidatedUrl>,
    current_html: String,
    current_nodes: Vec<DomNode>,
    current_title: String,
}

impl View for ServoRenderer {
    type V = RendererView;

    closed spec fn view(&self) -> RendererView {
        RendererView {
            url: match self.current_url {
                Some(u) => Some(u@),
                None => None,
            },
            html: self.current_html@,
            nodes: node_views(self.current_nodes@),
            title: self.current_title@,
        }
    }
}

impl ServoRenderer {
    /// An engine that has loaded nothing: no URL, the empty source with the
    /// document that the parser makes of it, and the title "Navigator".
    pub fn new() -> (engine: Self)
        ensures
            engine@ == (RendererView {
                url: None,
                html: Seq::empty(),
                nodes: nodes_of(html_nodes(Seq::empty())),
                title: "Navigator"@,
            }),
    {
        let html = String::new();
        let nodes = document_of(list_html(html.as_str()));
        ServoRenderer {
            current_url: None,
            current_html: html,
            current_nodes: nodes,
            current_title: String::from_str("Navigator"),
        }
    }

    /// Takes in the page at `url` with the source `html`: parses the source
    /// and gives the engine the title of the document. A source that is too
    /// long to parse is a failure, and leaves the engine as it is.
    pub fn load_html(&mut self, url: &ValidatedUrl, html: String) -> (r: Result<(), BrowserError>)
        ensures
            match r {
                Ok(_) => html@.len() <= MAX_SOURCE_LEN && final(self)@ == (RendererView {
                    url: Some(url@),
                    html: html@,
                    nodes: nodes_of(html_nodes(html@)),
                    title: title_of(nodes_of(html_nodes(html@))),
                }),
                Err(e) => html@.len() > MAX_SOURCE_LEN && e@ == too_long() && final(self)@ == old(
                    self,
                )@,
            },
    {
        match parse_html(html.as_str()) {
            Ok(nodes) => {
                self.load_page(url, html, nodes);
                Ok(())
            },
            Err(e) => Err(e),
        }
    }

    /// Takes in a page: its URL, its source, and a document for it. The
    /// title becomes that of the document.
    pub fn load_page(&mut self, url: &ValidatedUrl, html: String, nodes: Vec<DomNode>)
        ensures
            final(self)@ == (RendererView {
                url: Some(url@),
                html: html@,
                nodes: node_views(nodes@),
                title: title_of(node_views(nodes@)),
            }),
    {
        let title = extract_title(&nodes);
        self.current_url = Some(url.clone());
        self.current_html = html;
        self.current_nodes = nodes;
        self.current_title = title;
    }

    /// The source of the page that was loaded last.
    pub fn current_html(&self) -> (html: &str)
        ensures
            html@ == self@.html,
    {
        self.current_html.as_str()
    }

    /// The URL of the page that was loaded last.
    pub fn current_url(&self) -> (url: Option<&ValidatedUrl>)
        ensures
            match url {
                Some(u) => self@.url == Some(u@),
                None => self@.url is None,
            },
    {
        match &self.current_url {
            Some(u) => Some(u),
            None => None,
        }
    }

    /// The title of the page that was loaded last.
    pub fn get_title(&self) -> (title: String)
        ensures
            title@ == self@.title,
    {
        self.current_title.clone()
    }

    /// The page that was loaded last, as indented text.
    pub fn render_to_text(&self) -> (text: String)
        ensures
            text@ == text_of(self@.nodes),
    {
        render_to_text(&self.current_nodes)
    }

    /// Scripts are not run: the answer is the empty text, whatever the
    /// script.
    pub fn execute_javascript(&self, script: &str) -> (answer: String)
        ensures
            answer@ == Seq::<char>::empty(),
    {
        String::new()
    }

    /// No picture is taken: the answer is empty.
    pub fn take_screenshot(&self) -> (picture: Vec<u8>)
        ensures
            picture@ == Seq::<u8>::empty(),
    {
        Vec::new()
    }
}

impl Default for ServoRenderer {
    fn default() -> (engine: Self)
        ensures
            engine@.title == "Navigator"@,
            engine@.url is None,
    {
        ServoRenderer::new()
    }
}

// ---------------------------------------------------------------------------
// Configuration
// ---------------------------------------------------------------------------

/// What the rendering engine is allowed to do, and how it names itself.
#[derive(Debug)]
pub struct RenderingConfig {
    pub enable_javascript: bool,
    pub enable_images: bool,
    pub enable_plugins: bool,
    pub user_agent: Option<String>,
    pub default_encoding: String,
}

/// A [`RenderingConfig`] with its texts as sequences of characters.
pub struct RenderingConfigView {
    pub enable_javascript: bool,
    pub enable_images: bool,
    pub enable_plugins: bool,
    pub user_agent: Option<Seq<char>>,
    pub default_encoding: Seq<char>,
}

impl View for RenderingConfig {
    type V = RenderingConfigView;

    open spec fn view(&self) -> RenderingConfigView {
        RenderingConfigView {
            enable_javascript: self.enable_javascript,
            enable_images: self.enable_images,
            enable_plugins: self.enable_plugins,
            user_agent: match self.user_agent {
                Some(agent) => Some(agent@),
                None => None,
            },
            default_encoding: self.default_encoding@,
        }
    }
}

/// The name under which the browser asks for pages.
pub const USER_AGENT: &'static str = "Navigator/0.1.0";

impl Default for RenderingConfig {
    /// Scripts and images on, plug-ins off, the browser's own user agent,
    /// and UTF-8 where a page names no encoding.
    fn default() -> (config: Self)
        ensures
            config@ == (RenderingConfigView {
                enable_javascript: true,
                enable_images: true,
                enable_plugins: false,
                user_agent: Some(USER_AGENT@),
                default_encoding: "UTF-8"@,
            }),
    {
        RenderingConfig {
            enable_javascript: true,
            enable_images: true,
            enable_plugins: false,
            user_agent: Some(String::from_str(USER_AGENT)),
            default_encoding: String::from_str("UTF-8"),
        }
    }
}

impl Clone for RenderingConfig {
    fn clone(&self) -> (copy: Self)
        ensures
            copy@ == self@,
    {
        RenderingConfig {
            enable_javascript: self.enable_javascript,
            enable_images: self.enable_images,
            enable_plugins: self.enable_plugins,
            user_agent: match &self.user_agent {
                Some(agent) => Some(agent.clone()),
                None => None,
            },
            default_encoding: self.default_encoding.clone(),
        }
    }
}

} // verus!
