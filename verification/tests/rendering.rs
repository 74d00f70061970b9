use html5ever::parse_document;
use html5ever::tendril::TendrilSink;
use markup5ever_rcdom::{Handle, NodeData, RcDom};
use navigator::domain::{BrowserError, ValidatedUrl};
use navigator::infrastructure::rendering::{
    document_of, extract_title, parse_html, render_to_text, MAX_SOURCE_LEN,
};
use navigator::infrastructure::{DomNode, MockRenderer, NodeKind, NodeRecord, ServoRenderer};

fn node(depth: usize, kind: NodeKind) -> DomNode {
    DomNode { depth, kind }
}

fn element(depth: usize, name: &str) -> DomNode {
    node(depth, NodeKind::Element(name.to_string()))
}

fn text(depth: usize, text: &str) -> DomNode {
    node(depth, NodeKind::Text(text.to_string()))
}

fn page() -> Vec<DomNode> {
    vec![
        node(0, NodeKind::Document),
        node(1, NodeKind::Other),
        element(1, "html"),
        element(2, "head"),
        element(3, "title"),
        text(4, "Hello"),
        element(2, "body"),
        element(3, "p"),
        text(4, "  Hi there \n"),
        text(3, "\n  "),
    ]
}

fn flatten(handle: &Handle, depth: usize, out: &mut Vec<DomNode>) {
    let kind = match &handle.data {
        NodeData::Document => NodeKind::Document,
        NodeData::Element { name, .. } => NodeKind::Element(name.local.to_string()),
        NodeData::Text { contents } => NodeKind::Text(contents.borrow().to_string()),
        _ => NodeKind::Other,
    };
    out.push(DomNode { depth, kind });
    for child in handle.children.borrow().iter() {
        flatten(child, depth + 1, out);
    }
}

fn parse(html: &str) -> (RcDom, Vec<DomNode>) {
    let dom = parse_document(RcDom::default(), Default::default())
        .from_utf8()
        .read_from(&mut html.as_bytes())
        .unwrap();
    let mut nodes = Vec::new();
    flatten(&dom.document, 0, &mut nodes);
    (dom, nodes)
}

fn title_by_descent(handle: &Handle, title: &mut Option<String>) {
    if let NodeData::Element { name, .. } = &handle.data {
        if &name.local == "title" {
            if let Some(first) = handle.children.borrow().first() {
                if let NodeData::Text { contents } = &first.data {
                    *title = Some(contents.borrow().to_string());
                }
            }
        }
    }
    for child in handle.children.borrow().iter() {
        title_by_descent(child, title);
    }
}

fn text_by_descent(handle: &Handle, output: &mut String, depth: usize) {
    let indent = "  ".repeat(depth);
    match &handle.data {
        NodeData::Element { name, .. } => {
            output.push_str(&format!("{}<{}>\n", indent, &name.local));
        }
        NodeData::Text { contents } => {
            let text = contents.borrow();
            let trimmed = text.trim();
            if !trimmed.is_empty() {
                output.push_str(&format!("{}{}\n", indent, trimmed));
            }
        }
        _ => {}
    }
    for child in handle.children.borrow().iter() {
        text_by_descent(child, output, depth + 1);
    }
}

#[test]
fn the_title_is_the_text_under_the_title_element() {
    assert_eq!(extract_title(&page()), "Hello");
}

#[test]
fn a_document_without_title_is_untitled() {
    assert_eq!(extract_title(&Vec::new()), "Untitled");
    assert_eq!(extract_title(&vec![node(0, NodeKind::Document)]), "Untitled");
    assert_eq!(extract_title(&vec![element(1, "title")]), "Untitled");
    assert_eq!(extract_title(&vec![element(1, "title"), element(2, "b"), text(3, "x")]), "Untitled");
    assert_eq!(extract_title(&vec![element(1, "title"), text(1, "sibling")]), "Untitled");
    assert_eq!(extract_title(&vec![element(1, "title"), text(3, "too deep")]), "Untitled");
    assert_eq!(extract_title(&vec![element(1, "TITLE"), text(2, "x")]), "Untitled");
    assert_eq!(extract_title(&vec![element(usize::MAX, "title"), text(0, "x")]), "Untitled");
}

#[test]
fn the_last_title_wins() {
    let nodes = vec![
        element(1, "title"),
        text(2, "first"),
        element(1, "svg"),
        element(2, "title"),
        text(3, "second"),
        element(1, "title"),
        element(2, "b"),
    ];
    assert_eq!(extract_title(&nodes), "second");
}

#[test]
fn a_title_is_taken_as_it_stands() {
    assert_eq!(extract_title(&vec![element(0, "title"), text(1, "  spaced  ")]), "  spaced  ");
    assert_eq!(extract_title(&vec![element(0, "title"), text(1, "")]), "");
}

#[test]
fn a_document_is_rendered_line_by_line() {
    assert_eq!(
        render_to_text(&page()),
        "  <html>\n    <head>\n      <title>\n        Hello\n    <body>\n      <p>\n        Hi there\n"
    );
    assert_eq!(render_to_text(&Vec::new()), "");
    assert_eq!(render_to_text(&vec![element(0, "a")]), "<a>\n");
    assert_eq!(render_to_text(&vec![text(0, " \t\n")]), "");
    assert_eq!(render_to_text(&vec![text(1, "x")]), "  x\n");
    assert_eq!(render_to_text(&vec![node(3, NodeKind::Other), node(0, NodeKind::Document)]), "");
}

#[test]
fn title_and_text_agree_with_a_descent_through_the_parsed_tree() {
    for html in [
        "",
        "<html><head><title>Example Domain</title></head><body><p>Hi</p></body></html>",
        "<title>One</title><p>text <b>bold</b> tail</p><!-- note --><title>Two</title>",
        "<!DOCTYPE html><title></title><body>  \n <div> a <br> b </div>",
        "<svg><title>Drawing</title></svg><p>after",
        "<title><b>no text first</b></title>",
        "plain text only",
        "<ul><li>one<li>two<ul><li>deep</ul></ul>",
    ] {
        let (dom, nodes) = parse(html);
        let mut title = None;
        title_by_descent(&dom.document, &mut title);
        assert_eq!(extract_title(&nodes), title.unwrap_or_else(|| "Untitled".to_string()), "{}", html);
        let mut output = String::new();
        text_by_descent(&dom.document, &mut output, 0);
        assert_eq!(render_to_text(&nodes), output, "{}", html);
    }
}

fn shape(nodes: &[DomNode]) -> Vec<(usize, String)> {
    nodes.iter().map(|n| (n.depth, format!("{:?}", n.kind))).collect()
}

#[test]
fn parsing_gives_the_nodes_of_the_tree_in_document_order() {
    for html in [
        "",
        "<html><head><title>Example Domain</title></head><body><p>Hi</p></body></html>",
        "<title>One</title><p>text <b>bold</b> tail</p><!-- note --><title>Two</title>",
        "<!DOCTYPE html><title></title><body>  \n <div> a <br> b </div>",
        "<ul><li>one<li>two<ul><li>deep</ul></ul>",
        "caf\u{e9} &amp; <em>th\u{e9}</em>",
    ] {
        let (_, expected) = parse(html);
        assert_eq!(shape(&parse_html(html).unwrap()), shape(&expected), "{}", html);
    }
}

#[test]
fn parsing_a_small_page() {
    let nodes = parse_html("<title>T</title><p>x").unwrap();
    assert_eq!(
        shape(&nodes),
        shape(&[
            node(0, NodeKind::Document),
            element(1, "html"),
            element(2, "head"),
            element(3, "title"),
            text(4, "T"),
            element(2, "body"),
            element(3, "p"),
            text(4, "x"),
        ])
    );
    assert_eq!(extract_title(&nodes), "T");
    assert_eq!(render_to_text(&nodes), "  <html>\n    <head>\n      <title>\n        T\n    <body>\n      <p>\n        x\n");
}

fn record(name: &str, children: usize) -> NodeRecord {
    NodeRecord { kind: NodeKind::Element(name.to_string()), children }
}

#[test]
fn a_node_stands_one_below_the_node_whose_child_it_is() {
    let records = vec![
        NodeRecord { kind: NodeKind::Document, children: 2 },
        record("a", 2),
        record("b", 0),
        record("c", 1),
        record("d", 0),
        NodeRecord { kind: NodeKind::Other, children: 0 },
        record("e", 0),
    ];
    assert_eq!(
        shape(&document_of(records)),
        shape(&[
            node(0, NodeKind::Document),
            element(1, "a"),
            element(2, "b"),
            element(2, "c"),
            element(3, "d"),
            node(1, NodeKind::Other),
            element(0, "e"),
        ])
    );
    assert!(document_of(Vec::new()).is_empty());
    assert_eq!(shape(&document_of(vec![record("x", 5)])), shape(&[element(0, "x")]));
    assert_eq!(
        shape(&document_of(vec![record("x", 0), record("y", 0)])),
        shape(&[element(0, "x"), element(0, "y")])
    );
    assert_eq!(
        shape(&document_of(vec![record("x", 1), record("y", 1), record("z", 1), record("w", 0)])),
        shape(&[element(0, "x"), element(1, "y"), element(2, "z"), element(3, "w")])
    );
}

#[test]
fn the_engine_keeps_the_page_that_was_loaded_last() {
    let mut engine = ServoRenderer::new();
    assert_eq!(engine.get_title(), "Navigator");
    assert_eq!(engine.render_to_text(), "  <html>\n    <head>\n    <body>\n");
    assert_eq!(engine.current_html(), "");
    assert!(engine.current_url().is_none());
    assert_eq!(ServoRenderer::default().get_title(), "Navigator");

    let url = ValidatedUrl::parse("https://example.com").unwrap();
    engine.load_page(&url, "<html>".to_string(), page());
    assert_eq!(engine.get_title(), "Hello");
    assert_eq!(engine.current_html(), "<html>");
    assert_eq!(engine.current_url().unwrap().as_str(), "https://example.com/");
    assert_eq!(engine.render_to_text(), render_to_text(&page()));

    engine.load_page(&url, String::new(), Vec::new());
    assert_eq!(engine.get_title(), "Untitled");
    assert_eq!(engine.render_to_text(), "");

    engine.load_html(&url, "<title>Loaded</title><h1>Hello</h1>".to_string()).unwrap();
    assert_eq!(engine.get_title(), "Loaded");
    assert_eq!(engine.current_html(), "<title>Loaded</title><h1>Hello</h1>");
    assert_eq!(
        engine.render_to_text(),
        "  <html>\n    <head>\n      <title>\n        Loaded\n    <body>\n      <h1>\n        Hello\n"
    );
    engine.load_html(&url, "no title here".to_string()).unwrap();
    assert_eq!(engine.get_title(), "Untitled");
    assert_eq!(engine.execute_javascript("1 + 1"), "");
    assert!(engine.take_screenshot().is_empty());
}

#[test]
fn the_stand_in_engine_takes_the_host_for_the_title() {
    let mut engine = MockRenderer::new();
    assert_eq!(engine.get_title(), "New Tab");
    assert_eq!(MockRenderer::default().get_title(), "New Tab");
    engine.load_url(&ValidatedUrl::parse("https://example.com/a").unwrap());
    assert_eq!(engine.get_title(), "example.com");
    engine.load_url(&ValidatedUrl::parse("data:text/plain,x").unwrap());
    assert_eq!(engine.get_title(), "example.com");
    assert_eq!(engine.execute_javascript("x"), "");
    assert!(engine.take_screenshot().is_empty());
}

#[test]
fn a_source_that_is_too_long_is_not_parsed() {
    let long = "a".repeat(MAX_SOURCE_LEN + 1);
    match parse_html(&long) {
        Err(BrowserError::RenderFailure(report)) => assert_eq!(report, "page source too long"),
        _ => panic!("unexpected"),
    }
    let mut engine = ServoRenderer::new();
    let url = ValidatedUrl::parse("https://example.com").unwrap();
    engine.load_html(&url, "<title>Kept</title>".to_string()).unwrap();
    assert!(matches!(engine.load_html(&url, long), Err(BrowserError::RenderFailure(_))));
    assert_eq!(engine.get_title(), "Kept");
    assert_eq!(engine.current_html(), "<title>Kept</title>");
}

#[test]
fn characters_that_grow_in_parsing_are_parsed() {
    let source = format!("<title>{}</title>", "\0".repeat(100_000));
    let nodes = parse_html(&source).unwrap();
    let text = nodes.iter().find_map(|n| match &n.kind {
        NodeKind::Text(text) => Some(text.clone()),
        _ => None,
    });
    let text = text.unwrap();
    assert_eq!(text.len(), 300_000);
    assert!(text.chars().all(|c| c == '\u{fffd}'));
}
