//! The configuration of a site, read from a tree of keyed entries.
//!
//! The tree is a `Confindent` of the `confindent` crate, kept as it is.
//! What the tree holds is named here, and each lookup of that crate that
//! the library makes goes through one function whose contract says, over
//! those names, what the lookup gives. Verus takes these contracts on
//! trust, as it does the one on lowercasing a text.

use vstd::prelude::*;
use vstd::string::*;

verus! {

/// `confindent::Confindent`, a parsed configuration file. Verus sees
/// nothing inside it.
#[verifier::external_type_specification]
#[verifier::external_body]
pub struct ExConfindent(confindent::Confindent);

/// `confindent::Value`, one entry of a configuration file with the
/// entries below it. Verus sees nothing inside it.
#[verifier::external_type_specification]
#[verifier::external_body]
pub struct ExValue(confindent::Value);

/// What a `Confindent` holds: its entries without indentation, in the
/// order of the file. Comments and blank lines are no entries.
pub uninterp spec fn config_entries(conf: confindent::Confindent) -> Seq<confindent::Value>;

/// The key of an entry.
pub uninterp spec fn entry_key(entry: confindent::Value) -> Seq<char>;

/// The value of an entry, if it has one.
pub uninterp spec fn entry_value(entry: confindent::Value) -> Option<Seq<char>>;

/// What an entry holds below it: its direct children, in the order of the
/// file.
pub uninterp spec fn entry_children(entry: confindent::Value) -> Seq<confindent::Value>;

/// What `str::to_lowercase` gives for `text`.
pub uninterp spec fn lowercased(text: Seq<char>) -> Seq<char>;

/// The first of `entries` with the given key.
pub open spec fn first_with_key(entries: Seq<confindent::Value>, key: Seq<char>) -> Option<
    confindent::Value,
>
    decreases entries.len(),
{
    if entries.len() == 0 {
        None
    } else if entry_key(entries.first()) == key {
        Some(entries.first())
    } else {
        first_with_key(entries.drop_first(), key)
    }
}

/// Those of `entries` that have the given key, in their order.
pub open spec fn all_with_key(entries: Seq<confindent::Value>, key: Seq<char>) -> Seq<
    confindent::Value,
> {
    entries.filter(|entry: confindent::Value| entry_key(entry) == key)
}

/// `Confindent::child`: the first entry without indentation that has the
/// given key.
#[verifier::external_body]
pub(crate) fn config_child<'a>(conf: &'a confindent::Confindent, key: &str) -> (found: Option<
    &'a confindent::Value,
>)
    ensures
        found is Some <==> first_with_key(config_entries(*conf), key@) is Some,
        found matches Some(entry) ==> Some(*entry) == first_with_key(config_entries(*conf), key@)
            && entry_key(*entry) == key@,
{
    conf.child(key)
}

/// `Confindent::children`: all entries without indentation that have the
/// given key, in the order of the file.
#[verifier::external_body]
pub(crate) fn config_children<'a>(conf: &'a confindent::Confindent, key: &str) -> (found: Vec<
    &'a confindent::Value,
>)
    ensures
        found@.len() == all_with_key(config_entries(*conf), key@).len(),
        forall|i: int|
            0 <= i < found@.len() ==> *(#[trigger] found@[i]) == all_with_key(
                config_entries(*conf),
                key@,
            )[i],
{
    conf.children(key)
}

/// `Value::child`: the first direct child of the entry that has the given
/// key.
#[verifier::external_body]
pub(crate) fn entry_child<'a>(entry: &'a confindent::Value, key: &str) -> (found: Option<
    &'a confindent::Value,
>)
    ensures
        found is Some <==> first_with_key(entry_children(*entry), key@) is Some,
        found matches Some(child) ==> Some(*child) == first_with_key(entry_children(*entry), key@)
            && entry_key(*child) == key@,
{
    entry.child(key)
}

/// `Value::value`: the value of the entry, if it has one.
#[verifier::external_body]
pub(crate) fn entry_text<'a>(entry: &'a confindent::Value) -> (text: Option<&'a str>)
    ensures
        text is Some <==> entry_value(*entry) is Some,
        text matches Some(t) ==> Some(t@) == entry_value(*entry),
{
    entry.value()
}

/// `str::to_lowercase`.
#[verifier::external_body]
fn lowercase(text: &str) -> (lower: String)
    ensures
        lower@ == lowercased(text@),
{
    text.to_lowercase()
}

/// The value of the first of `entries` with the given key: none where
/// there is no such entry, or where it has no value.
pub open spec fn value_of_child(entries: Seq<confindent::Value>, key: Seq<char>) -> Option<
    Seq<char>,
> {
    match first_with_key(entries, key) {
        Some(entry) => entry_value(entry),
        None => None,
    }
}

/// The values of `entries`, in order: none where one of them has no value.
pub open spec fn values_of(entries: Seq<confindent::Value>) -> Option<Seq<Seq<char>>>
    decreases entries.len(),
{
    if entries.len() == 0 {
        Some(Seq::empty())
    } else {
        match (values_of(entries.drop_last()), entry_value(entries.last())) {
            (Some(values), Some(value)) => Some(values.push(value)),
            _ => None,
        }
    }
}

/// What a text says of linking: `true` or `false`, in any letter case.
pub open spec fn link_choice(text: Seq<char>) -> Option<bool> {
    if lowercased(text) == "false"@ {
        Some(false)
    } else if lowercased(text) == "true"@ {
        Some(true)
    } else {
        None
    }
}

/// The value of the child `key` of the configuration, copied.
pub(crate) fn child_value(conf: &confindent::Confindent, key: &str) -> (value: Option<String>)
    ensures
        value is Some <==> value_of_child(config_entries(*conf), key@) is Some,
        value matches Some(v) ==> Some(v@) == value_of_child(config_entries(*conf), key@),
{
    match config_child(conf, key) {
        Some(entry) => match entry_text(entry) {
            Some(text) => Some(text.to_owned()),
            None => None,
        },
        None => None,
    }
}

/// The value of the child `key` of an entry, copied.
pub(crate) fn entry_child_value(entry: &confindent::Value, key: &str) -> (value: Option<String>)
    ensures
        value is Some <==> value_of_child(entry_children(*entry), key@) is Some,
        value matches Some(v) ==> Some(v@) == value_of_child(entry_children(*entry), key@),
{
    match entry_child(entry, key) {
        Some(child) => match entry_text(child) {
            Some(text) => Some(text.to_owned()),
            None => None,
        },
        None => None,
    }
}

/// The values of all children `key` of the configuration, copied.
fn children_values(conf: &confindent::Confindent, key: &str) -> (values: Option<Vec<String>>)
    ensures
        values is Some <==> values_of(all_with_key(config_entries(*conf), key@)) is Some,
        values matches Some(v) ==> Some(v.deep_view()) == values_of(
            all_with_key(config_entries(*conf), key@),
        ),
{
    let found = config_children(conf, key);
    let ghost entries = all_with_key(config_entries(*conf), key@);
    let mut values: Vec<String> = Vec::new();
    let mut i: usize = 0;
    while i < found.len()
        invariant
            i <= found.len(),
            entries == all_with_key(config_entries(*conf), key@),
            found@.len() == entries.len(),
            forall|j: int| 0 <= j < found@.len() ==> *(#[trigger] found@[j]) == entries[j],
            values_of(entries.take(i as int)) == Some(values.deep_view()),
        decreases found.len() - i,
    {
        assert(entries.take(i + 1).drop_last() =~= entries.take(i as int));
        match entry_text(found[i]) {
            Some(text) => {
                values.push(text.to_owned());
            },
            None => {
                proof {
                    lemma_values_of_prefix(entries, i + 1);
                }
                return None;
            },
        }
        i += 1;
    }
    assert(entries.take(i as int) =~= entries);
    Some(values)
}

/// Where a prefix of the entries has one without a value, so has the whole.
proof fn lemma_values_of_prefix(entries: Seq<confindent::Value>, n: int)
    requires
        0 <= n <= entries.len(),
        values_of(entries.take(n)) is None,
    ensures
        values_of(entries) is None,
    decreases entries.len() - n,
{
    if n < entries.len() {
        assert(entries.take(n + 1).drop_last() =~= entries.take(n));
        lemma_values_of_prefix(entries, n + 1);
    } else {
        assert(entries.take(n) =~= entries);
    }
}

/// The configuration of a site.
#[derive(Debug, Clone, PartialEq, Eq)]
pub struct JearConfig {
    /// The directory of the sources.
    pub nyble_root: String,
    /// The directory to write to.
    pub output: String,
    /// Template files that only need to be compiled.
    pub bempline_build: Vec<String>,
    /// Directories to copy across.
    pub copy: Vec<String>,
    /// Directories to link to.
    pub symlink: Vec<String>,
    /// The directory of the large images.
    pub silly_gifs: String,
    /// Whether the large images are linked to symbolically (`true`) or
    /// hard-linked file by file (`false`).
    pub silly_gifs_sym: bool,
}

/// The view of a [`JearConfig`].
pub struct JearConfigView {
    pub nyble_root: Seq<char>,
    pub output: Seq<char>,
    pub bempline_build: Seq<Seq<char>>,
    pub copy: Seq<Seq<char>>,
    pub symlink: Seq<Seq<char>>,
    pub silly_gifs: Seq<char>,
    pub silly_gifs_sym: bool,
}

impl View for JearConfig {
    type V = JearConfigView;

    open spec fn view(&self) -> JearConfigView {
        JearConfigView {
            nyble_root: self.nyble_root@,
            output: self.output@,
            bempline_build: self.bempline_build.deep_view(),
            copy: self.copy.deep_view(),
            symlink: self.symlink.deep_view(),
            silly_gifs: self.silly_gifs@,
            silly_gifs_sym: self.silly_gifs_sym,
        }
    }
}

/// Why a configuration is refused.
#[derive(Debug, Clone, PartialEq, Eq)]
pub enum ConfigError {
    /// There is no `NybleRoot` with a value.
    MissingNybleRoot,
    /// There is no `Output` with a value.
    MissingOutput,
    /// A `Build`, `Copy` or `Symlink` entry has no value.
    MissingValue,
    /// There is no `SillyGifs` with a value.
    SillyGifs,
    /// `SillyGifs` has no child `Symlink` with a value.
    MissingSymlink,
    /// The value of `SillyGifs`'s `Symlink` is neither `true` nor `false`.
    ConfusingSymlink(String),
}

/// The view of a [`ConfigError`].
pub enum ConfigErrorView {
    MissingNybleRoot,
    MissingOutput,
    MissingValue,
    SillyGifs,
    MissingSymlink,
    ConfusingSymlink(Seq<char>),
}

impl View for ConfigError {
    type V = ConfigErrorView;

    open spec fn view(&self) -> ConfigErrorView {
        match self {
            ConfigError::MissingNybleRoot => ConfigErrorView::MissingNybleRoot,
            ConfigError::MissingOutput => ConfigErrorView::MissingOutput,
            ConfigError::MissingValue => ConfigErrorView::MissingValue,
            ConfigError::SillyGifs => ConfigErrorView::SillyGifs,
            ConfigError::MissingSymlink => ConfigErrorView::MissingSymlink,
            ConfigError::ConfusingSymlink(text) => ConfigErrorView::ConfusingSymlink(text@),
        }
    }
}

/// The line that tells the operator why a configuration is refused.
pub open spec fn refusal_text(error: ConfigErrorView) -> Seq<char> {
    match error {
        ConfigErrorView::MissingNybleRoot => "Missing NybleRoot"@,
        ConfigErrorView::MissingOutput => "Missing Output"@,
        ConfigErrorView::MissingValue => "Missing value in a Build, Copy or Symlink entry"@,
        ConfigErrorView::SillyGifs => "Missing or malformed SillyGifs"@,
        ConfigErrorView::MissingSymlink => {
            "SillyGifs.Symlink is required. true for symlink, false for hardlink"@
        },
        ConfigErrorView::ConfusingSymlink(text) => {
            "SillyGifs.Symlink value '"@ + text + "' is confusing"@
        },
    }
}

impl ConfigError {
    /// The line that tells the operator why the configuration is refused.
    pub fn message(&self) -> (line: String)
        ensures
            line@ == refusal_text(self@),
    {
        match self {
            ConfigError::MissingNybleRoot => "Missing NybleRoot".to_owned(),
            ConfigError::MissingOutput => "Missing Output".to_owned(),
            ConfigError::MissingValue => "Missing value in a Build, Copy or Symlink entry".to_owned(),
            ConfigError::SillyGifs => "Missing or malformed SillyGifs".to_owned(),
            ConfigError::MissingSymlink => {
                "SillyGifs.Symlink is required. true for symlink, false for hardlink".to_owned()
            },
            ConfigError::ConfusingSymlink(text) => {
                let mut line = "SillyGifs.Symlink value '".to_owned();
                line.append(text.as_str());
                line.append("' is confusing");
                line
            },
        }
    }
}

/// What the entries of a configuration make: the site's configuration, or
/// the first thing that is wrong with them, looked for in the order
/// `NybleRoot`, `Output`, `Build`, `Copy`, `Symlink`, `SillyGifs`, and
/// `Symlink` below `SillyGifs`.
pub open spec fn made(entries: Seq<confindent::Value>) -> Result<JearConfigView, ConfigErrorView> {
    if value_of_child(entries, "NybleRoot"@) is None {
        Err(ConfigErrorView::MissingNybleRoot)
    } else if value_of_child(entries, "Output"@) is None {
        Err(ConfigErrorView::MissingOutput)
    } else if values_of(all_with_key(entries, "Build"@)) is None || values_of(
        all_with_key(entries, "Copy"@),
    ) is None || values_of(all_with_key(entries, "Symlink"@)) is None {
        Err(ConfigErrorView::MissingValue)
    } else if value_of_child(entries, "SillyGifs"@) is None {
        Err(ConfigErrorView::SillyGifs)
    } else {
        let below = entry_children(first_with_key(entries, "SillyGifs"@).unwrap());
        match value_of_child(below, "Symlink"@) {
            None => Err(ConfigErrorView::MissingSymlink),
            Some(text) => match link_choice(text) {
                None => Err(ConfigErrorView::ConfusingSymlink(text)),
                Some(choice) => Ok(
                    JearConfigView {
                        nyble_root: value_of_child(entries, "NybleRoot"@).unwrap(),
                        output: value_of_child(entries, "Output"@).unwrap(),
                        bempline_build: values_of(all_with_key(entries, "Build"@)).unwrap(),
                        copy: values_of(all_with_key(entries, "Copy"@)).unwrap(),
                        symlink: values_of(all_with_key(entries, "Symlink"@)).unwrap(),
                        silly_gifs: value_of_child(entries, "SillyGifs"@).unwrap(),
                        silly_gifs_sym: choice,
                    },
                ),
            },
        }
    }
}

/// Reads what a text says of linking.
fn read_link_choice(text: &str) -> (choice: Option<bool>)
    ensures
        choice == link_choice(text@),
{
    let lower = lowercase(text);
    let no = "false".to_owned();
    let yes = "true".to_owned();
    if lower == no {
        Some(false)
    } else if lower == yes {
        Some(true)
    } else {
        None
    }
}

impl JearConfig {
    /// Makes the site's configuration of a configuration tree, or says
    /// what is wrong with the tree.
    pub fn make(c: confindent::Confindent) -> (out: Result<JearConfig, ConfigError>)
        ensures
            out is Ok <==> made(config_entries(c)) is Ok,
            out matches Ok(conf) ==> Ok::<JearConfigView, ConfigErrorView>(conf@) == made(
                config_entries(c),
            ),
            out matches Err(error) ==> Err::<JearConfigView, ConfigErrorView>(error@) == made(
                config_entries(c),
            ),
    {
        let nyble_root = match child_value(&c, "NybleRoot") {
            Some(root) => root,
            None => {
                return Err(ConfigError::MissingNybleRoot);
            },
        };
        let output = match child_value(&c, "Output") {
            Some(output) => output,
            None => {
                return Err(ConfigError::MissingOutput);
            },
        };
        let bempline_build = match children_values(&c, "Build") {
            Some(values) => values,
            None => {
                return Err(ConfigError::MissingValue);
            },
        };
        let copy = match children_values(&c, "Copy") {
            Some(values) => values,
            None => {
                return Err(ConfigError::MissingValue);
            },
        };
        let symlink = match children_values(&c, "Symlink") {
            Some(values) => values,
            None => {
                return Err(ConfigError::MissingValue);
            },
        };
        let silly_gifs = match child_value(&c, "SillyGifs") {
            Some(gifs) => gifs,
            None => {
                return Err(ConfigError::SillyGifs);
            },
        };
        let below = match config_child(&c, "SillyGifs") {
            Some(entry) => entry,
            None => {
                return Err(ConfigError::SillyGifs);
            },
        };
        let choice = match entry_child_value(below, "Symlink") {
            Some(text) => text,
            None => {
                return Err(ConfigError::MissingSymlink);
            },
        };
        let silly_gifs_sym = match read_link_choice(choice.as_str()) {
            Some(choice) => choice,
            None => {
                return Err(ConfigError::ConfusingSymlink(choice));
            },
        };
        Ok(
            JearConfig {
                nyble_root,
                output,
                bempline_build,
                copy,
                symlink,
                silly_gifs,
                silly_gifs_sym,
            },
        )
    }
}

} // verus!
