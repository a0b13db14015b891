//! The markup renderer: block tokens and inline runs to HTML text.
//!
//! Rendering never fails. What cannot be rendered as meant is rendered
//! best-effort, and a [`Diagnostic`] is recorded beside the text.

use vstd::prelude::*;
use vstd::string::*;
use crate::diag::{Diagnostic, DiagnosticView};
use crate::markup::{Block, BlockView, Inline, InlineView, Link, LinkView, Parsed};
use crate::refs::RefTable;
use crate::text::{decimal, lemma_decimal_nonempty, push_decimal};

verus! {

/// The replacement text of one character: the five characters that are
/// significant in HTML become entities, every other character stands for
/// itself.
pub open spec fn escaped_char(c: char) -> Seq<char> {
    if c == '<' {
        "&lt;"@
    } else if c == '>' {
        "&gt;"@
    } else if c == '&' {
        "&amp;"@
    } else if c == '\'' {
        "&apos;"@
    } else if c == '"' {
        "&quot;"@
    } else {
        seq![c]
    }
}

/// The escaped form of a text: the replacement texts of its characters, in
/// order. Each input character is looked at once, so the output of a
/// replacement is never scanned again.
pub open spec fn escaped(raw: Seq<char>) -> Seq<char>
    decreases raw.len(),
{
    if raw.len() == 0 {
        Seq::empty()
    } else {
        escaped(raw.drop_last()) + escaped_char(raw.last())
    }
}

/// Escaping goes character by character: two texts put together escape to
/// their escaped forms put together.
pub proof fn lemma_escaped_concat(first: Seq<char>, second: Seq<char>)
    ensures
        escaped(first + second) == escaped(first) + escaped(second),
    decreases second.len(),
{
    if second.len() == 0 {
        assert(first + second =~= first);
        assert(escaped(first) + escaped(second) =~= escaped(first));
    } else {
        assert((first + second).drop_last() =~= first + second.drop_last());
        lemma_escaped_concat(first, second.drop_last());
        assert(escaped(first + second) =~= escaped(first) + escaped(second));
    }
}

/// An escaped text holds no angle bracket and no quote, whatever the raw
/// text held.
pub proof fn lemma_escaped_is_inert(raw: Seq<char>, i: int)
    requires
        0 <= i < escaped(raw).len(),
    ensures
        escaped(raw)[i] != '<',
        escaped(raw)[i] != '>',
        escaped(raw)[i] != '\'',
        escaped(raw)[i] != '"',
    decreases raw.len(),
{
    reveal_strlit("&lt;");
    reveal_strlit("&gt;");
    reveal_strlit("&amp;");
    reveal_strlit("&apos;");
    reveal_strlit("&quot;");
    if i < escaped(raw.drop_last()).len() {
        lemma_escaped_is_inert(raw.drop_last(), i);
    }
}

/// An anchor element with the given target and display text, both verbatim.
pub open spec fn anchor(href: Seq<char>, text: Seq<char>) -> Seq<char> {
    "<a href=\""@ + href + "\">"@ + text + "</a>"@
}

/// What a link shows: its name, verbatim, or else its escaped location.
pub open spec fn display_text(link: LinkView) -> Seq<char> {
    match link.name {
        Some(name) => name,
        None => escaped(link.location),
    }
}

/// The inert bracketed text that stands for a link that cannot be resolved.
pub open spec fn bracketed(link: LinkView) -> Seq<char> {
    match link.name {
        Some(name) => "{"@ + name + "|"@ + link.location + "}"@,
        None => "{"@ + link.location + "}"@,
    }
}

/// The HTML of one inline node.
pub open spec fn inline_markup(inline: InlineView, refs: Map<Seq<char>, Seq<char>>) -> Seq<char> {
    match inline {
        InlineView::Break => "<br>"@,
        InlineView::Text(text) => text,
        InlineView::Code(code) => "<code>"@ + code + "</code>"@,
        InlineView::Link(link) => anchor(link.location, display_text(link)),
        InlineView::Interlink(link) => bracketed(link),
        InlineView::ReferenceLink(link) => {
            if refs.contains_key(link.location) {
                anchor(refs[link.location], display_text(link))
            } else {
                link.location
            }
        },
    }
}

/// What rendering one inline node reports.
pub open spec fn inline_diagnostics(
    inline: InlineView,
    refs: Map<Seq<char>, Seq<char>>,
) -> Seq<DiagnosticView> {
    match inline {
        InlineView::Interlink(link) => seq![DiagnosticView::Interlink(link)],
        InlineView::ReferenceLink(link) => {
            if refs.contains_key(link.location) {
                Seq::empty()
            } else {
                seq![DiagnosticView::UnresolvedReference(link.location)]
            }
        },
        _ => Seq::empty(),
    }
}

/// The HTML of an inline run: the HTML of its nodes, in order.
pub open spec fn inlines_markup(
    inlines: Seq<InlineView>,
    refs: Map<Seq<char>, Seq<char>>,
) -> Seq<char>
    decreases inlines.len(),
{
    if inlines.len() == 0 {
        Seq::empty()
    } else {
        inlines_markup(inlines.drop_last(), refs) + inline_markup(inlines.last(), refs)
    }
}

/// What rendering an inline run reports, in the order of its nodes.
pub open spec fn inlines_diagnostics(
    inlines: Seq<InlineView>,
    refs: Map<Seq<char>, Seq<char>>,
) -> Seq<DiagnosticView>
    decreases inlines.len(),
{
    if inlines.len() == 0 {
        Seq::empty()
    } else {
        inlines_diagnostics(inlines.drop_last(), refs) + inline_diagnostics(inlines.last(), refs)
    }
}

/// The HTML of one block. A heading carries its level as written, however
/// deep; a code block closes its two elements in the order `pre`, `code`.
pub open spec fn token_markup(token: BlockView, refs: Map<Seq<char>, Seq<char>>) -> Seq<char> {
    match token {
        BlockView::Header { level, inner } => {
            "<h"@ + decimal(level) + ">"@ + inlines_markup(inner, refs) + "</h"@ + decimal(level)
                + ">"@
        },
        BlockView::Paragraph { inner } => "<p>"@ + inlines_markup(inner, refs) + "</p>"@,
        BlockView::CodeBlock { lang, code } => "<pre><code>"@ + code + "</pre></code>"@,
    }
}

/// What rendering one block reports: a heading deeper than level 5 first,
/// then what its inline run reports.
pub open spec fn token_diagnostics(
    token: BlockView,
    refs: Map<Seq<char>, Seq<char>>,
) -> Seq<DiagnosticView> {
    match token {
        BlockView::Header { level, inner } => {
            if level > 5 {
                seq![DiagnosticView::HeaderLevel(level)] + inlines_diagnostics(inner, refs)
            } else {
                inlines_diagnostics(inner, refs)
            }
        },
        BlockView::Paragraph { inner } => inlines_diagnostics(inner, refs),
        BlockView::CodeBlock { lang, code } => Seq::empty(),
    }
}

/// The HTML of a document: the HTML of its blocks, in order.
pub open spec fn tokens_markup(tokens: Seq<BlockView>, refs: Map<Seq<char>, Seq<char>>) -> Seq<
    char,
>
    decreases tokens.len(),
{
    if tokens.len() == 0 {
        Seq::empty()
    } else {
        tokens_markup(tokens.drop_last(), refs) + token_markup(tokens.last(), refs)
    }
}

/// What rendering a document reports, in the order of its blocks.
pub open spec fn tokens_diagnostics(
    tokens: Seq<BlockView>,
    refs: Map<Seq<char>, Seq<char>>,
) -> Seq<DiagnosticView>
    decreases tokens.len(),
{
    if tokens.len() == 0 {
        Seq::empty()
    } else {
        tokens_diagnostics(tokens.drop_last(), refs) + token_diagnostics(tokens.last(), refs)
    }
}

/// An inline run renders piece by piece: two runs put together render to
/// their renderings put together, and report what each reports, in order.
pub proof fn lemma_inlines_markup_concat(
    first: Seq<InlineView>,
    second: Seq<InlineView>,
    refs: Map<Seq<char>, Seq<char>>,
)
    ensures
        inlines_markup(first + second, refs) == inlines_markup(first, refs) + inlines_markup(
            second,
            refs,
        ),
        inlines_diagnostics(first + second, refs) == inlines_diagnostics(first, refs)
            + inlines_diagnostics(second, refs),
    decreases second.len(),
{
    if second.len() == 0 {
        assert(first + second =~= first);
        assert(inlines_markup(first, refs) + inlines_markup(second, refs) =~= inlines_markup(
            first,
            refs,
        ));
        assert(inlines_diagnostics(first, refs) + inlines_diagnostics(second, refs)
            =~= inlines_diagnostics(first, refs));
    } else {
        assert((first + second).drop_last() =~= first + second.drop_last());
        lemma_inlines_markup_concat(first, second.drop_last(), refs);
        assert(inlines_markup(first + second, refs) =~= inlines_markup(first, refs)
            + inlines_markup(second, refs));
        assert(inlines_diagnostics(first + second, refs) =~= inlines_diagnostics(first, refs)
            + inlines_diagnostics(second, refs));
    }
}

/// A document renders block by block: two runs of blocks put together
/// render to their renderings put together, and report what each reports,
/// in order. Nothing is reordered and nothing is left out.
pub proof fn lemma_tokens_markup_concat(
    first: Seq<BlockView>,
    second: Seq<BlockView>,
    refs: Map<Seq<char>, Seq<char>>,
)
    ensures
        tokens_markup(first + second, refs) == tokens_markup(first, refs) + tokens_markup(
            second,
            refs,
        ),
        tokens_diagnostics(first + second, refs) == tokens_diagnostics(first, refs)
            + tokens_diagnostics(second, refs),
    decreases second.len(),
{
    if second.len() == 0 {
        assert(first + second =~= first);
        assert(tokens_markup(first, refs) + tokens_markup(second, refs) =~= tokens_markup(
            first,
            refs,
        ));
        assert(tokens_diagnostics(first, refs) + tokens_diagnostics(second, refs)
            =~= tokens_diagnostics(first, refs));
    } else {
        assert((first + second).drop_last() =~= first + second.drop_last());
        lemma_tokens_markup_concat(first, second.drop_last(), refs);
        assert(tokens_markup(first + second, refs) =~= tokens_markup(first, refs) + tokens_markup(
            second,
            refs,
        ));
        assert(tokens_diagnostics(first + second, refs) =~= tokens_diagnostics(first, refs)
            + tokens_diagnostics(second, refs));
    }
}

/// The length of the tags that wrap a block, whatever the block holds.
pub open spec fn wrapper_len(token: BlockView) -> nat {
    match token {
        BlockView::Header { level, inner } => 7 + 2 * decimal(level).len(),
        BlockView::Paragraph { inner } => 7,
        BlockView::CodeBlock { lang, code } => 24,
    }
}

/// The summed length of the wrapping tags of all blocks.
pub open spec fn wrappers_len(tokens: Seq<BlockView>) -> nat
    decreases tokens.len(),
{
    if tokens.len() == 0 {
        0
    } else {
        wrappers_len(tokens.drop_last()) + wrapper_len(tokens.last())
    }
}

/// Every block renders to at least its wrapping tags, so to at least seven
/// characters: no block is dropped silently.
pub proof fn lemma_token_markup_len(token: BlockView, refs: Map<Seq<char>, Seq<char>>)
    ensures
        token_markup(token, refs).len() >= wrapper_len(token),
        wrapper_len(token) >= 7,
{
    reveal_strlit("<h");
    reveal_strlit(">");
    reveal_strlit("</h");
    reveal_strlit("<p>");
    reveal_strlit("</p>");
    reveal_strlit("<pre><code>");
    reveal_strlit("</pre></code>");
    match token {
        BlockView::Header { level, inner } => {
            lemma_decimal_nonempty(level);
        },
        _ => {},
    }
}

/// The rendering of a document is at least as long as the wrapping tags of
/// all its blocks together.
pub proof fn lemma_tokens_markup_len(tokens: Seq<BlockView>, refs: Map<Seq<char>, Seq<char>>)
    ensures
        tokens_markup(tokens, refs).len() >= wrappers_len(tokens),
        wrappers_len(tokens) >= 7 * tokens.len(),
    decreases tokens.len(),
{
    if tokens.len() > 0 {
        lemma_tokens_markup_len(tokens.drop_last(), refs);
        lemma_token_markup_len(tokens.last(), refs);
    }
}

/// A heading of any level renders with that very level in both tags, and
/// reports its level exactly when the level is above 5.
pub proof fn lemma_heading_markup(
    level: nat,
    inner: Seq<InlineView>,
    refs: Map<Seq<char>, Seq<char>>,
)
    ensures
        tokens_markup(seq![BlockView::Header { level, inner }], refs) == "<h"@ + decimal(level)
            + ">"@ + inlines_markup(inner, refs) + "</h"@ + decimal(level) + ">"@,
        level > 5 ==> tokens_diagnostics(seq![BlockView::Header { level, inner }], refs)
            == seq![DiagnosticView::HeaderLevel(level)] + inlines_diagnostics(inner, refs),
        level <= 5 ==> tokens_diagnostics(seq![BlockView::Header { level, inner }], refs)
            == inlines_diagnostics(inner, refs),
{
    // Before the one block stands nothing.
    let tokens = seq![BlockView::Header { level, inner }];
    assert(tokens_markup(tokens.drop_last(), refs) =~= Seq::<char>::empty());
    assert(tokens_diagnostics(tokens.drop_last(), refs) =~= Seq::<DiagnosticView>::empty());
}

/// Escapes the five HTML-significant characters of `raw`. It is to be
/// applied once to raw text: applied to escaped text, it escapes the `&` of
/// every entity again.
pub fn htmlspecialchars(raw: &str) -> (ret: String)
    ensures
        ret@ == escaped(raw@),
{
    let mut ret = String::new();
    for ch in it: raw.chars()
        invariant
            it.seq() == raw@,
            ret@ == escaped(raw@.take(it.index())),
    {
        assert(raw@.take(it.index() + 1).drop_last() == raw@.take(it.index()));
        match ch {
            '<' => ret.append("&lt;"),
            '>' => ret.append("&gt;"),
            '&' => ret.append("&amp;"),
            '\'' => ret.append("&apos;"),
            '"' => ret.append("&quot;"),
            c => ret.push(c),
        }
    }
    assert(raw@.take(raw@.len() as int) == raw@);
    ret
}

fn link_display(link: &Link) -> (text: String)
    ensures
        text@ == display_text(link@),
{
    match &link.name {
        Some(name) => name.clone(),
        None => htmlspecialchars(link.location.as_str()),
    }
}

fn anchor_html(href: &str, text: &str) -> (ret: String)
    ensures
        ret@ == anchor(href@, text@),
{
    let mut ret = "<a href=\"".to_owned();
    ret.append(href);
    ret.append("\">");
    ret.append(text);
    ret.append("</a>");
    ret
}

fn copy_link(link: &Link) -> (copy: Link)
    ensures
        copy@ == link@,
{
    Link {
        name: match &link.name {
            Some(name) => Some(name.clone()),
            None => None,
        },
        location: link.location.clone(),
    }
}

/// Renders one inline node, and records in `diags` what it reports.
pub fn inline_html(inline: &Inline, refs: &RefTable, diags: &mut Vec<Diagnostic>) -> (ret: String)
    ensures
        ret@ == inline_markup(inline@, refs@),
        final(diags).deep_view() == old(diags).deep_view() + inline_diagnostics(inline@, refs@),
{
    match inline {
        Inline::Break => "<br>".to_owned(),
        Inline::Text(text) => text.clone(),
        Inline::Code(code) => {
            let mut ret = "<code>".to_owned();
            ret.append(code.as_str());
            ret.append("</code>");
            ret
        },
        Inline::Interlink(link) => {
            diags.push(Diagnostic::Interlink(copy_link(link)));
            let mut ret = "{".to_owned();
            match &link.name {
                Some(name) => {
                    ret.append(name.as_str());
                    ret.append("|");
                },
                None => {},
            }
            ret.append(link.location.as_str());
            ret.append("}");
            ret
        },
        Inline::Link(link) => {
            let text = link_display(link);
            anchor_html(link.location.as_str(), text.as_str())
        },
        Inline::ReferenceLink(link) => {
            match refs.get(link.location.as_str()) {
                None => {
                    diags.push(Diagnostic::UnresolvedReference(link.location.clone()));
                    link.location.clone()
                },
                Some(target) => {
                    let text = link_display(link);
                    anchor_html(target.as_str(), text.as_str())
                },
            }
        },
    }
}

/// Renders an inline run: the HTML of its nodes, concatenated in order.
/// What the nodes report is appended to `diags` in the same order.
pub fn inlines_html(inlines: &[Inline], refs: &RefTable, diags: &mut Vec<Diagnostic>) -> (ret:
    String)
    ensures
        ret@ == inlines_markup(inlines.deep_view(), refs@),
        final(diags).deep_view() == old(diags).deep_view() + inlines_diagnostics(
            inlines.deep_view(),
            refs@,
        ),
{
    let mut ret = String::new();
    let mut i: usize = 0;
    while i < inlines.len()
        invariant
            i <= inlines.len(),
            ret@ == inlines_markup(inlines.deep_view().take(i as int), refs@),
            diags.deep_view() == old(diags).deep_view() + inlines_diagnostics(
                inlines.deep_view().take(i as int),
                refs@,
            ),
        decreases inlines.len() - i,
    {
        let piece = inline_html(&inlines[i], refs, diags);
        ret.append(piece.as_str());
        assert(inlines.deep_view().take(i + 1).drop_last() =~= inlines.deep_view().take(i as int));
        i += 1;
    }
    assert(inlines.deep_view().take(i as int) =~= inlines.deep_view());
    ret
}

/// Renders one block, and records in `diags` what it reports.
pub fn token_html(token: &Block, refs: &RefTable, diags: &mut Vec<Diagnostic>) -> (ret: String)
    ensures
        ret@ == token_markup(token@, refs@),
        final(diags).deep_view() == old(diags).deep_view() + token_diagnostics(token@, refs@),
{
    match token {
        Block::Header { level, inner } => {
            if *level > 5 {
                diags.push(Diagnostic::HeaderLevel(*level));
            }
            let text = inlines_html(inner.as_slice(), refs, diags);
            let mut ret = "<h".to_owned();
            push_decimal(&mut ret, *level);
            ret.append(">");
            ret.append(text.as_str());
            ret.append("</h");
            push_decimal(&mut ret, *level);
            ret.append(">");
            ret
        },
        Block::Paragraph { inner } => {
            let text = inlines_html(inner.as_slice(), refs, diags);
            let mut ret = "<p>".to_owned();
            ret.append(text.as_str());
            ret.append("</p>");
            ret
        },
        Block::CodeBlock { lang, code } => {
            let mut ret = "<pre><code>".to_owned();
            ret.append(code.as_str());
            ret.append("</pre></code>");
            ret
        },
    }
}

/// Renders a sequence of blocks: the HTML of the blocks, concatenated in
/// order, nothing reordered and nothing left out. What the blocks report
/// is appended to `diags` in the same order.
pub fn tokens_html(tokens: &[Block], refs: &RefTable, diags: &mut Vec<Diagnostic>) -> (ret: String)
    ensures
        ret@ == tokens_markup(tokens.deep_view(), refs@),
        ret@.len() >= wrappers_len(tokens.deep_view()),
        final(diags).deep_view() == old(diags).deep_view() + tokens_diagnostics(
            tokens.deep_view(),
            refs@,
        ),
{
    let mut ret = String::new();
    let mut i: usize = 0;
    while i < tokens.len()
        invariant
            i <= tokens.len(),
            ret@ == tokens_markup(tokens.deep_view().take(i as int), refs@),
            diags.deep_view() == old(diags).deep_view() + tokens_diagnostics(
                tokens.deep_view().take(i as int),
                refs@,
            ),
        decreases tokens.len() - i,
    {
        let piece = token_html(&tokens[i], refs, diags);
        ret.append(piece.as_str());
        assert(tokens.deep_view().take(i + 1).drop_last() =~= tokens.deep_view().take(i as int));
        i += 1;
    }
    proof {
        assert(tokens.deep_view().take(i as int) =~= tokens.deep_view());
        lemma_tokens_markup_len(tokens.deep_view(), refs@);
    }
    ret
}

/// Renders a parsed document with its own reference table.
pub fn parser_html(parser: &Parsed, diags: &mut Vec<Diagnostic>) -> (ret: String)
    ensures
        ret@ == tokens_markup(parser.tokens.deep_view(), parser.references@),
        final(diags).deep_view() == old(diags).deep_view() + tokens_diagnostics(
            parser.tokens.deep_view(),
            parser.references@,
        ),
{
    tokens_html(parser.tokens.as_slice(), &parser.references, diags)
}

} // verus!
