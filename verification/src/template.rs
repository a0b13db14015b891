//! Templates with named scalar slots and named repeatable blocks.
//!
//! The template engine is the `bempline` crate. Its `Document` is kept as it
//! is; what it holds is named here, and each of its methods that the
//! builders use is called through one function whose contract says, over
//! those names, what the method does. Verus takes these contracts on trust.

use vstd::prelude::*;

verus! {

/// `bempline::Document`, a parsed template with what was set in it. Verus
/// sees nothing inside it.
#[verifier::external_type_specification]
#[verifier::external_body]
pub struct ExDocument(bempline::Document);

/// `bempline::Token`, one parsed piece of a template's text. Verus sees
/// nothing inside it.
#[verifier::external_type_specification]
#[verifier::external_body]
pub struct ExToken(bempline::Token);

/// What a `bempline::Document` holds of its template text: the parsed
/// pieces (text, slots, blocks, conditionals), in order.
pub uninterp spec fn document_body(doc: bempline::Document) -> Seq<bempline::Token>;

/// What a `bempline::Document` holds as scalar slots: the values that were
/// set, by slot name.
pub uninterp spec fn document_slots(doc: bempline::Document) -> Map<Seq<char>, Seq<char>>;

/// What a `bempline::Document` holds as filled blocks: by block name, the
/// compiled instances in the order in which they were set.
pub uninterp spec fn document_blocks(doc: bempline::Document) -> Map<Seq<char>, Seq<Seq<char>>>;

/// The text that `Document::compile` gives for a document that holds the
/// given body, slots and filled blocks.
pub uninterp spec fn compiled(
    body: Seq<bempline::Token>,
    slots: Map<Seq<char>, Seq<char>>,
    blocks: Map<Seq<char>, Seq<Seq<char>>>,
) -> Seq<char>;

/// The body of the block that `Document::get_pattern` finds under `name`
/// in the given body, if the body defines such a block.
pub uninterp spec fn block_body(body: Seq<bempline::Token>, name: Seq<char>) -> Option<
    Seq<bempline::Token>,
>;

/// The instances that are filled in under `name`: none where nothing was set.
pub open spec fn instances(blocks: Map<Seq<char>, Seq<Seq<char>>>, name: Seq<char>) -> Seq<
    Seq<char>,
> {
    if blocks.contains_key(name) {
        blocks[name]
    } else {
        Seq::empty()
    }
}

/// `Document::clone`, which `derive` wrote: the copy holds the same body,
/// slots and filled blocks.
#[verifier::external_body]
fn document_clone(doc: &bempline::Document) -> (copy: bempline::Document)
    ensures
        document_body(copy) == document_body(*doc),
        document_slots(copy) == document_slots(*doc),
        document_blocks(copy) == document_blocks(*doc),
{
    doc.clone()
}

/// `Document::set`: the slot `key` now holds `value`, whatever it held
/// before; the body, the other slots and the filled blocks stay.
#[verifier::external_body]
fn document_set(doc: &mut bempline::Document, key: &str, value: &str)
    ensures
        document_body(*final(doc)) == document_body(*old(doc)),
        document_slots(*final(doc)) == document_slots(*old(doc)).insert(key@, value@),
        document_blocks(*final(doc)) == document_blocks(*old(doc)),
{
    doc.set(key, value);
}

/// `Document::get_pattern`: where the body defines a block under `name`,
/// a fresh document whose body is that block's body, with a copy of the
/// slots and without any filled block; `None` where it defines none.
#[verifier::external_body]
fn document_get_pattern(doc: &bempline::Document, name: &str) -> (pattern: Option<
    bempline::Document,
>)
    ensures
        pattern is Some <==> block_body(document_body(*doc), name@) is Some,
        pattern matches Some(p) ==> {
            &&& document_body(p) == block_body(document_body(*doc), name@).unwrap()
            &&& document_slots(p) == document_slots(*doc)
            &&& document_blocks(p) == Map::<Seq<char>, Seq<Seq<char>>>::empty()
        },
{
    doc.get_pattern(name)
}

/// `Document::set_pattern`: compiles `pattern` and appends the text to the
/// instances filled in under `name`. Earlier instances stay, in their
/// order; the body and the slots stay.
#[verifier::external_body]
fn document_set_pattern(doc: &mut bempline::Document, name: &str, pattern: bempline::Document)
    ensures
        document_body(*final(doc)) == document_body(*old(doc)),
        document_slots(*final(doc)) == document_slots(*old(doc)),
        document_blocks(*final(doc)) == document_blocks(*old(doc)).insert(
            name@,
            instances(document_blocks(*old(doc)), name@).push(
                compiled(document_body(pattern), document_slots(pattern), document_blocks(pattern)),
            ),
        ),
{
    doc.set_pattern(name, pattern);
}

/// `Document::compile`: the text of the document, a function of its body,
/// slots and filled blocks.
#[verifier::external_body]
fn document_compile(doc: bempline::Document) -> (text: String)
    ensures
        text@ == compiled(document_body(doc), document_slots(doc), document_blocks(doc)),
{
    doc.compile()
}

/// The view of a [`Template`]: its body, its scalar slots and its filled
/// blocks.
pub struct TemplateView {
    pub body: Seq<bempline::Token>,
    pub slots: Map<Seq<char>, Seq<char>>,
    pub blocks: Map<Seq<char>, Seq<Seq<char>>>,
}

/// The view of a document of the template engine.
pub open spec fn document_view(doc: bempline::Document) -> TemplateView {
    TemplateView {
        body: document_body(doc),
        slots: document_slots(doc),
        blocks: document_blocks(doc),
    }
}

/// The text that the template compiles to.
pub open spec fn output(t: TemplateView) -> Seq<char> {
    compiled(t.body, t.slots, t.blocks)
}

/// The template after `value` was set for the slot `field`.
pub open spec fn with_slot(t: TemplateView, field: Seq<char>, value: Seq<char>) -> TemplateView {
    TemplateView { body: t.body, slots: t.slots.insert(field, value), blocks: t.blocks }
}

/// The template after the compiled text `instance` was appended to the
/// block `name`.
pub open spec fn with_instance(t: TemplateView, name: Seq<char>, instance: Seq<char>) -> TemplateView {
    TemplateView {
        body: t.body,
        slots: t.slots,
        blocks: t.blocks.insert(name, instances(t.blocks, name).push(instance)),
    }
}

/// A fresh instance of the block `name`, if the template defines it. The
/// instance starts with the template's slots and no filled block.
pub open spec fn pattern_of(t: TemplateView, name: Seq<char>) -> Option<TemplateView> {
    match block_body(t.body, name) {
        Some(body) => Some(TemplateView { body, slots: t.slots, blocks: Map::empty() }),
        None => None,
    }
}

/// The template does not define the repeatable block that a builder was
/// to fill: template and builder do not belong together.
#[derive(Debug, Clone, Copy, PartialEq, Eq)]
pub struct MissingPattern;

/// An output skeleton with named slots to fill in and named blocks to
/// repeat. It owns what was set in it until it is compiled.
pub struct Template {
    doc: bempline::Document,
}

impl View for Template {
    type V = TemplateView;

    closed spec fn view(&self) -> TemplateView {
        document_view(self.doc)
    }
}

impl Template {
    /// Takes a document of the template engine, as it was loaded.
    pub fn from_document(doc: bempline::Document) -> (template: Template)
        ensures
            template@ == document_view(doc),
    {
        Template { doc }
    }

    /// A copy of the template, with all that was set in it.
    pub fn copy(&self) -> (copy: Template)
        ensures
            copy@ == self@,
    {
        Template { doc: document_clone(&self.doc) }
    }

    /// A fresh instance of the repeatable block `name`, to be filled and
    /// then handed to [`Template::set_pattern`]. There is none exactly when
    /// the template does not define the block.
    pub fn get_pattern(&self, name: &str) -> (pattern: Option<Template>)
        ensures
            pattern is Some <==> pattern_of(self@, name@) is Some,
            pattern matches Some(p) ==> Some(p@) == pattern_of(self@, name@),
    {
        match document_get_pattern(&self.doc, name) {
            Some(doc) => Some(Template { doc }),
            None => None,
        }
    }

    /// Sets the scalar slot `field` to `value`, whatever the slot held
    /// before. No field name is refused, whether the body mentions it or
    /// not.
    pub fn set(&mut self, field: &str, value: &str)
        ensures
            final(self)@ == with_slot(old(self)@, field@, value@),
    {
        document_set(&mut self.doc, field, value);
    }

    /// Compiles `instance` and appends it to the block `name`. What was
    /// appended before stays in place, in call order: nothing is overwritten.
    pub fn set_pattern(&mut self, name: &str, instance: Template)
        ensures
            final(self)@ == with_instance(old(self)@, name@, output(instance@)),
            instances(final(self)@.blocks, name@) == instances(old(self)@.blocks, name@).push(
                output(instance@),
            ),
    {
        document_set_pattern(&mut self.doc, name, instance.doc);
    }

    /// Compiles the template to its final text. The template is only read.
    pub fn compile(&self) -> (text: String)
        ensures
            text@ == output(self@),
    {
        document_compile(document_clone(&self.doc))
    }
}

/// Compiling is idempotent: two compilations of one template, with nothing
/// set between them, give the same text.
pub proof fn lemma_compile_idempotent(template: Template, first: String, second: String)
    requires
        first@ == output(template@),
        second@ == output(template@),
    ensures
        first@ == second@,
{
}

/// Appending to a block keeps every earlier instance of every block where
/// it was, and leaves the slots alone.
pub proof fn lemma_with_instance_appends(t: TemplateView, name: Seq<char>, instance: Seq<char>)
    ensures
        with_instance(t, name, instance).slots == t.slots,
        with_instance(t, name, instance).body == t.body,
        instances(with_instance(t, name, instance).blocks, name) == instances(t.blocks, name).push(
            instance,
        ),
        forall|other: Seq<char>|
            other != name ==> instances(with_instance(t, name, instance).blocks, other)
                == #[trigger] instances(t.blocks, other),
        pattern_of(with_instance(t, name, instance), name) == pattern_of(t, name),
{
}

} // verus!
