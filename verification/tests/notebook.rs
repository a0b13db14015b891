use bempline::{Document, Options};
use jear::diag::Diagnostic;
use jear::markup::{Block, Inline, Link, Parsed};
use jear::notebook::{Notebook, NotebookPage};
use jear::refs::RefTable;
use jear::template::{MissingPattern, Template};

fn template(text: &str) -> Template {
    Template::from_document(Document::from_str(text, Options::default()).unwrap())
}

fn page(name: &str, content: &str) -> NotebookPage {
    NotebookPage { name: name.to_string(), content: content.to_string() }
}

#[test]
fn notebook_lists_its_pages_in_order() {
    let t = template("<main>{%pattern page}<article>{content}</article>{%end}</main>");
    let pages = vec![page("b.txt", "<p>B</p>"), page("a.txt", "<p>A</p>"), page("c.txt", "")];
    let notebook = Notebook::new(t, pages);
    assert_eq!(
        notebook.output(),
        Ok("<main><article><p>B</p></article><article><p>A</p></article><article></article></main>"
            .to_string())
    );
}

#[test]
fn notebook_keeps_equal_pages() {
    let t = template("{%pattern page}[{content}]{%end}");
    let pages = vec![page("a", "x"), page("b", "x"), page("a", "x")];
    assert_eq!(Notebook::new(t, pages).output(), Ok("[x][x][x]".to_string()));
}

#[test]
fn notebook_without_pages_compiles_the_bare_template() {
    let t = template("<main>{%pattern page}<article>{content}</article>{%end}</main>");
    assert_eq!(Notebook::new(t, vec![]).output(), Ok("<main></main>".to_string()));
}

#[test]
fn notebook_fails_without_a_page_block() {
    let t = template("<main>{%pattern entry}{content}{%end}</main>");
    assert_eq!(Notebook::new(t, vec![page("a", "A")]).output(), Err(MissingPattern));
    let t = template("<main></main>");
    assert_eq!(Notebook::new(t, vec![]).output(), Err(MissingPattern));
}

#[test]
fn notebook_page_is_rendered_from_what_was_parsed() {
    let mut references = RefTable::new();
    references.insert("home".to_string(), "https://home".to_string());
    let parsed = Parsed {
        tokens: vec![
            Block::Header { level: 7, inner: vec![Inline::Text("Title".to_string())] },
            Block::Paragraph {
                inner: vec![Inline::ReferenceLink(Link {
                    name: None,
                    location: "home".to_string(),
                })],
            },
        ],
        references,
    };
    let mut diags = Vec::new();
    let page = NotebookPage::from_file("first.txt".to_string(), &parsed, &mut diags);
    assert_eq!(page.name, "first.txt");
    assert_eq!(page.content, "<h7>Title</h7><p><a href=\"https://home\">home</a></p>");
    assert_eq!(diags, vec![Diagnostic::HeaderLevel(7)]);
}
