//! The freeform collection: pages in the order they were listed, each
//! filled into one instance of the template's `page` block.

use vstd::prelude::*;
use crate::diag::Diagnostic;
use crate::html::{parser_html, tokens_diagnostics, tokens_markup};
use crate::markup::Parsed;
use crate::template::{
    output, pattern_of, with_instance, with_slot, MissingPattern, Template, TemplateView,
};

verus! {

/// One page of the notebook: the name of its source file and its rendered
/// HTML.
#[derive(Debug, Clone, PartialEq, Eq)]
pub struct NotebookPage {
    pub name: String,
    pub content: String,
}

impl NotebookPage {
    /// Renders what was parsed from the file called `name` into a page.
    /// What the rendering reports is appended to `diags`.
    pub fn from_file(name: String, parsed: &Parsed, diags: &mut Vec<Diagnostic>) -> (page:
        NotebookPage)
        ensures
            page.name@ == name@,
            page.content@ == tokens_markup(parsed.tokens.deep_view(), parsed.references@),
            final(diags).deep_view() == old(diags).deep_view() + tokens_diagnostics(
                parsed.tokens.deep_view(),
                parsed.references@,
            ),
    {
        let content = parser_html(parsed, diags);
        NotebookPage { name, content }
    }
}

/// The contents of pages, in order.
pub open spec fn contents_of(pages: Seq<NotebookPage>) -> Seq<Seq<char>> {
    Seq::new(pages.len(), |i: int| pages[i].content@)
}

/// One filled instance of the page block: the block with `content` in its
/// slot `content`, compiled.
pub open spec fn page_instance(pattern: TemplateView, content: Seq<char>) -> Seq<char> {
    output(with_slot(pattern, "content"@, content))
}

/// The template after one instance of `pattern` was appended to its block
/// `page` for each of `contents`, in order.
pub open spec fn with_pages(
    template: TemplateView,
    pattern: TemplateView,
    contents: Seq<Seq<char>>,
) -> TemplateView
    decreases contents.len(),
{
    if contents.len() == 0 {
        template
    } else {
        with_instance(
            with_pages(template, pattern, contents.drop_last()),
            "page"@,
            page_instance(pattern, contents.last()),
        )
    }
}

/// The text of a notebook: its template with one instance of the block
/// `page` per page, in the order of the pages. There is none where the
/// template does not define that block.
pub open spec fn notebook_markup(template: TemplateView, contents: Seq<Seq<char>>) -> Option<
    Seq<char>,
> {
    match pattern_of(template, "page"@) {
        Some(pattern) => Some(output(with_pages(template, pattern, contents))),
        None => None,
    }
}

/// A notebook: a template and the pages to list in it.
pub struct Notebook {
    pub template: Template,
    pub pages: Vec<NotebookPage>,
}

impl Notebook {
    /// A notebook of the given pages, which keep their order.
    pub fn new(template: Template, pages: Vec<NotebookPage>) -> (notebook: Notebook)
        ensures
            notebook.template@ == template@,
            notebook.pages@ == pages@,
    {
        Notebook { template, pages }
    }

    /// Compiles the notebook: one instance of the block `page` per page,
    /// in the order of the pages, then the whole template, once. It fails
    /// exactly when the template defines no block `page`, however many
    /// pages there are.
    pub fn output(self) -> (out: Result<String, MissingPattern>)
        ensures
            out is Ok <==> notebook_markup(self.template@, contents_of(self.pages@)) is Some,
            out matches Ok(text) ==> Some(text@) == notebook_markup(
                self.template@,
                contents_of(self.pages@),
            ),
    {
        let Notebook { template, pages } = self;
        let ghost start = template@;
        let mut template = template;
        let pattern = match template.get_pattern("page") {
            Some(pattern) => pattern,
            None => {
                return Err(MissingPattern);
            },
        };
        let mut i: usize = 0;
        while i < pages.len()
            invariant
                i <= pages.len(),
                Some(pattern@) == pattern_of(start, "page"@),
                template@ == with_pages(start, pattern@, contents_of(pages@).take(i as int)),
            decreases pages.len() - i,
        {
            let mut instance = pattern.copy();
            instance.set("content", pages[i].content.as_str());
            template.set_pattern("page", instance);
            assert(contents_of(pages@).take(i + 1).drop_last() =~= contents_of(pages@).take(
                i as int,
            ));
            i += 1;
        }
        assert(contents_of(pages@).take(i as int) =~= contents_of(pages@));
        Ok(template.compile())
    }
}

} // verus!
