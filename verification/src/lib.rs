//! Rendering of a small structured-text document model into HTML, and the
//! assembly of rendered pages into templated collections.
//!
//! - [`markup`] holds the document model: block tokens, inline nodes, links.
//! - [`refs`] holds the reference table of a document.
//! - [`html`] renders the model to HTML; [`diag`] holds what a rendering
//!   reports beside its text.
//! - [`template`] fills templates: scalar slots, repeatable blocks.
//! - [`notebook`] builds the freeform collection, [`words`] the dated one;
//!   [`order`] says what "newest first" means and [`date`] reads, orders and
//!   writes dates.
//! - [`config`] reads the configuration of a site, and [`tree`] decides how
//!   its files are brought across.
//!
//! Every function is verified against its contract. The contracts of the
//! few functions that call into other crates are taken on trust; each says
//! so where it stands.

pub mod config;
pub mod date;
pub mod diag;
pub mod html;
pub mod markup;
pub mod notebook;
pub mod order;
pub mod refs;
pub mod template;
pub mod text;
pub mod tree;
pub mod words;
