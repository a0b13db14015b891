//! The document model that the renderer consumes: block tokens, inline
//! nodes and links, each with its mathematical view.

use vstd::prelude::*;
use crate::refs::RefTable;

verus! {

/// A link as it stands in the source: an optional display name and the
/// place it points to. For a reference link the place is a reference label.
#[derive(Debug, Clone, PartialEq, Eq)]
pub struct Link {
    pub name: Option<String>,
    pub location: String,
}

/// The view of a [`Link`].
pub struct LinkView {
    pub name: Option<Seq<char>>,
    pub location: Seq<char>,
}

impl View for Link {
    type V = LinkView;

    open spec fn view(&self) -> LinkView {
        LinkView {
            name: match self.name {
                Some(name) => Some(name@),
                None => None,
            },
            location: self.location@,
        }
    }
}

impl DeepView for Link {
    type V = LinkView;

    open spec fn deep_view(&self) -> LinkView {
        self@
    }
}

/// A unit of text-level content inside a block.
#[derive(Debug, Clone, PartialEq, Eq)]
pub enum Inline {
    /// A line break.
    Break,
    /// Literal text.
    Text(String),
    /// A code span.
    Code(String),
    /// A link to a given location.
    Link(Link),
    /// A link into a larger corpus, which nothing here can resolve.
    Interlink(Link),
    /// A link whose location is a label of the reference table.
    ReferenceLink(Link),
}

/// The view of an [`Inline`].
pub enum InlineView {
    Break,
    Text(Seq<char>),
    Code(Seq<char>),
    Link(LinkView),
    Interlink(LinkView),
    ReferenceLink(LinkView),
}

impl View for Inline {
    type V = InlineView;

    open spec fn view(&self) -> InlineView {
        match self {
            Inline::Break => InlineView::Break,
            Inline::Text(text) => InlineView::Text(text@),
            Inline::Code(code) => InlineView::Code(code@),
            Inline::Link(link) => InlineView::Link(link@),
            Inline::Interlink(link) => InlineView::Interlink(link@),
            Inline::ReferenceLink(link) => InlineView::ReferenceLink(link@),
        }
    }
}

impl DeepView for Inline {
    type V = InlineView;

    open spec fn deep_view(&self) -> InlineView {
        self@
    }
}

/// A block-level unit of a document.
#[derive(Debug, Clone, PartialEq, Eq)]
pub enum Block {
    /// A heading of the given level.
    Header { level: usize, inner: Vec<Inline> },
    /// A paragraph.
    Paragraph { inner: Vec<Inline> },
    /// A block of code, with the language it is tagged with, if any.
    CodeBlock { lang: Option<String>, code: String },
}

/// The view of a [`Block`].
pub enum BlockView {
    Header { level: nat, inner: Seq<InlineView> },
    Paragraph { inner: Seq<InlineView> },
    CodeBlock { lang: Option<Seq<char>>, code: Seq<char> },
}

impl View for Block {
    type V = BlockView;

    open spec fn view(&self) -> BlockView {
        match self {
            Block::Header { level, inner } => BlockView::Header {
                level: *level as nat,
                inner: inner.deep_view(),
            },
            Block::Paragraph { inner } => BlockView::Paragraph { inner: inner.deep_view() },
            Block::CodeBlock { lang, code } => BlockView::CodeBlock {
                lang: match lang {
                    Some(lang) => Some(lang@),
                    None => None,
                },
                code: code@,
            },
        }
    }
}

impl DeepView for Block {
    type V = BlockView;

    open spec fn deep_view(&self) -> BlockView {
        self@
    }
}

/// A parsed document: its blocks in order, and its reference table.
pub struct Parsed {
    pub tokens: Vec<Block>,
    pub references: RefTable,
}

} // verus!
