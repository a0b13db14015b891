//! Advisory findings of a rendering. They travel beside the rendered text
//! and never change it.

use vstd::prelude::*;
use vstd::string::*;
use crate::markup::{Link, LinkView};
use crate::text::{decimal, push_decimal};

verus! {

/// Something the renderer met that it rendered best-effort.
#[derive(Debug, Clone, PartialEq, Eq)]
pub enum Diagnostic {
    /// A heading deeper than level 5, rendered with its literal level.
    HeaderLevel(usize),
    /// A link into a larger corpus, rendered as inert bracketed text.
    Interlink(Link),
    /// A reference link whose label the table does not hold, rendered as
    /// its bare label.
    UnresolvedReference(String),
}

/// The view of a [`Diagnostic`].
pub enum DiagnosticView {
    HeaderLevel(nat),
    Interlink(LinkView),
    UnresolvedReference(Seq<char>),
}

impl View for Diagnostic {
    type V = DiagnosticView;

    open spec fn view(&self) -> DiagnosticView {
        match self {
            Diagnostic::HeaderLevel(level) => DiagnosticView::HeaderLevel(*level as nat),
            Diagnostic::Interlink(link) => DiagnosticView::Interlink(link@),
            Diagnostic::UnresolvedReference(label) => DiagnosticView::UnresolvedReference(label@),
        }
    }
}

impl DeepView for Diagnostic {
    type V = DiagnosticView;

    open spec fn deep_view(&self) -> DiagnosticView {
        self@
    }
}

/// The line that tells the operator of a finding.
pub open spec fn message_text(d: DiagnosticView) -> Seq<char> {
    match d {
        DiagnosticView::HeaderLevel(level) => {
            "Header level greater than 5, lol. Making you a good little <h"@ + decimal(level)
                + "> tag"@
        },
        DiagnosticView::Interlink(link) => {
            "No interlnks! name="@ + (match link.name {
                Some(name) => name,
                None => "None"@,
            }) + " link="@ + link.location
        },
        DiagnosticView::UnresolvedReference(label) => {
            "Failed to resolve a reflink: "@ + label + ". Outputting as regular text"@
        },
    }
}

impl Diagnostic {
    /// The line that tells the operator of this finding.
    pub fn message(&self) -> (line: String)
        ensures
            line@ == message_text(self@),
    {
        match self {
            Diagnostic::HeaderLevel(level) => {
                let mut line = "Header level greater than 5, lol. Making you a good little <h".to_owned();
                push_decimal(&mut line, *level);
                line.append("> tag");
                line
            },
            Diagnostic::Interlink(link) => {
                let mut line = "No interlnks! name=".to_owned();
                match &link.name {
                    Some(name) => line.append(name.as_str()),
                    None => line.append("None"),
                }
                line.append(" link=");
                line.append(link.location.as_str());
                line
            },
            Diagnostic::UnresolvedReference(label) => {
                let mut line = "Failed to resolve a reflink: ".to_owned();
                line.append(label.as_str());
                line.append(". Outputting as regular text");
                line
            },
        }
    }
}

} // verus!
