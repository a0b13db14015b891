//! The dated collection: posts with a date, listed newest first, each with
//! a page of its own.

use vstd::prelude::*;
use vstd::string::*;
use crate::config::{entry_child_value, entry_children, entry_text, entry_value, value_of_child};
use crate::date::CalendarDate;
use crate::html::{anchor, escaped, htmlspecialchars};
use crate::order::{arranged, is_newest_first, precedes};
use crate::template::{output, pattern_of, with_instance, with_slot, Template, TemplateView};
use crate::text::starts_with;

verus! {

/// Where a post first appeared.
#[derive(Debug, Clone, Copy, PartialEq, Eq, Structural)]
pub enum Place {
    Unknown,
    Cohost,
}

/// The place that a link to the first appearance points to.
pub open spec fn place_of(link: Seq<char>) -> Place {
    if "https://cohost.org"@.is_prefix_of(link) {
        Place::Cohost
    } else {
        Place::Unknown
    }
}

/// A note of where a post first appeared.
#[derive(Debug, PartialEq, Eq)]
pub struct Original {
    link: String,
    from: Place,
}

/// The view of an [`Original`].
pub struct OriginalView {
    pub link: Seq<char>,
    pub from: Place,
}

/// The HTML that tells the reader where a post first appeared.
pub open spec fn original_markup(original: OriginalView) -> Seq<char> {
    match original.from {
        Place::Cohost => "<a href=\""@ + original.link + "\">on cohost</a>"@,
        Place::Unknown => "here: "@ + anchor(original.link, escaped(original.link)),
    }
}

impl View for Original {
    type V = OriginalView;

    closed spec fn view(&self) -> OriginalView {
        OriginalView { link: self.link@, from: self.from }
    }
}

impl DeepView for Original {
    type V = OriginalView;

    open spec fn deep_view(&self) -> OriginalView {
        self@
    }
}

impl Clone for Original {
    fn clone(&self) -> (copy: Original)
        ensures
            copy@ == self@,
    {
        proof {
            use_type_invariant(self);
        }
        Original { link: self.link.clone(), from: self.from }
    }
}

impl Original {
    /// The place is always the one that the link points to.
    #[verifier::type_invariant]
    spec fn place_fits_link(self) -> bool {
        self.from == place_of(self.link@)
    }

    /// Notes the link, and the place it points to.
    pub fn new(link: String) -> (original: Original)
        ensures
            original@ == (OriginalView { link: link@, from: place_of(link@) }),
    {
        let from = if starts_with(link.as_str(), "https://cohost.org") {
            Place::Cohost
        } else {
            Place::Unknown
        };
        Original { link, from }
    }

    /// The link to the first appearance.
    pub fn link(&self) -> (link: &str)
        ensures
            link@ == self@.link,
    {
        self.link.as_str()
    }

    /// The place of the first appearance: the one that the link points to.
    pub fn from(&self) -> (from: Place)
        ensures
            from == self@.from,
            from == place_of(self@.link),
    {
        proof {
            use_type_invariant(self);
        }
        self.from
    }

    /// The HTML that tells the reader where the post first appeared.
    pub fn to_string(&self) -> (html: String)
        ensures
            html@ == original_markup(self@),
    {
        match self.from {
            Place::Cohost => {
                let mut html = "<a href=\"".to_owned();
                html.append(self.link.as_str());
                html.append("\">on cohost</a>");
                html
            },
            Place::Unknown => {
                let mut html = "here: ".to_owned();
                html.append("<a href=\"");
                html.append(self.link.as_str());
                html.append("\">");
                html.append(htmlspecialchars(self.link.as_str()).as_str());
                html.append("</a>");
                html
            },
        }
    }
}

/// One post: the product of rendering one source file, with what the
/// configuration says of it.
#[derive(Debug, Clone, PartialEq, Eq)]
pub struct Words {
    pub filename: String,
    pub title: String,
    pub date: CalendarDate,
    pub content: String,
    pub original: Option<Original>,
}

/// The view of a [`Words`].
pub struct WordsView {
    pub filename: Seq<char>,
    pub title: Seq<char>,
    pub date: CalendarDate,
    pub content: Seq<char>,
    pub original: Option<OriginalView>,
}

impl View for Words {
    type V = WordsView;

    open spec fn view(&self) -> WordsView {
        WordsView {
            filename: self.filename@,
            title: self.title@,
            date: self.date,
            content: self.content@,
            original: match self.original {
                Some(original) => Some(original@),
                None => None,
            },
        }
    }
}

impl DeepView for Words {
    type V = WordsView;

    open spec fn deep_view(&self) -> WordsView {
        self@
    }
}

/// Why an entry of the configuration names no post.
#[derive(Debug, Clone, Copy, PartialEq, Eq, Structural)]
pub enum EntryError {
    /// The entry has no value, which would be the post's file name.
    MissingName,
    /// The entry has no child `Title` with a value.
    MissingTitle,
    /// The entry has no child `Date` with a value.
    MissingDate,
    /// The value of `Date` is no date in the format of the configuration.
    BadDate,
}

/// The post that an entry of the configuration describes, with the given
/// content: the entry's value is the file name, its children `Title` and
/// `Date` give title and date, and a child `Original`, where there is one
/// with a value, the link to the first appearance. Where something is
/// missing, the first of file name, title and date that is.
pub open spec fn words_of(entry: confindent::Value, content: Seq<char>) -> Result<
    WordsView,
    EntryError,
> {
    let below = entry_children(entry);
    if entry_value(entry) is None {
        Err(EntryError::MissingName)
    } else if value_of_child(below, "Title"@) is None {
        Err(EntryError::MissingTitle)
    } else if value_of_child(below, "Date"@) is None {
        Err(EntryError::MissingDate)
    } else if CalendarDate::parsed(value_of_child(below, "Date"@).unwrap()) is None {
        Err(EntryError::BadDate)
    } else {
        Ok(
            WordsView {
                filename: entry_value(entry).unwrap(),
                title: value_of_child(below, "Title"@).unwrap(),
                date: CalendarDate::parsed(value_of_child(below, "Date"@).unwrap()).unwrap(),
                content,
                original: match value_of_child(below, "Original"@) {
                    Some(link) => Some(OriginalView { link, from: place_of(link) }),
                    None => None,
                },
            },
        )
    }
}

impl Words {
    /// Makes a post of its entry in the configuration and of its rendered
    /// content.
    pub fn from_confindent(value: &confindent::Value, content: String) -> (out: Result<
        Words,
        EntryError,
    >)
        ensures
            out is Ok <==> words_of(*value, content@) is Ok,
            out matches Ok(words) ==> Ok::<WordsView, EntryError>(words@) == words_of(
                *value,
                content@,
            ),
            out matches Err(error) ==> Err::<WordsView, EntryError>(error) == words_of(
                *value,
                content@,
            ),
    {
        let filename = match entry_text(value) {
            Some(name) => name.to_owned(),
            None => {
                return Err(EntryError::MissingName);
            },
        };
        let title = match entry_child_value(value, "Title") {
            Some(title) => title,
            None => {
                return Err(EntryError::MissingTitle);
            },
        };
        let date_text = match entry_child_value(value, "Date") {
            Some(text) => text,
            None => {
                return Err(EntryError::MissingDate);
            },
        };
        let date = match CalendarDate::parse(date_text.as_str()) {
            Some(date) => date,
            None => {
                return Err(EntryError::BadDate);
            },
        };
        let original = match entry_child_value(value, "Original") {
            Some(link) => Some(Original::new(link)),
            None => None,
        };
        Ok(Words { filename, title, date, content, original })
    }
}

/// The keys by which posts are ordered: those of their dates.
pub open spec fn date_keys(words: Seq<Words>) -> Seq<int> {
    Seq::new(words.len(), |i: int| words[i].date.key())
}

/// Sorts posts by date, newest first. Posts of one date keep the order
/// they came in.
pub fn sort_newest_first(words: Vec<Words>) -> (sorted: Vec<Words>)
    ensures
        exists|order: Seq<int>|
            is_newest_first(date_keys(words@), order) && sorted@ == arranged(words@, order),
{
    let ghost keys = date_keys(words@);
    let ghost mut order: Seq<int> = Seq::empty();
    let mut rest = words;
    let mut sorted: Vec<Words> = Vec::new();
    while rest.len() > 0
        invariant
            keys == date_keys(words@),
            sorted.len() + rest.len() == words.len(),
            rest@ == words@.skip(sorted.len() as int),
            order.len() == sorted.len(),
            forall|i: int| 0 <= i < order.len() ==> 0 <= #[trigger] order[i] < sorted.len(),
            forall|i: int, j: int|
                0 <= i < j < order.len() ==> precedes(
                    keys,
                    #[trigger] order[i],
                    #[trigger] order[j],
                ),
            forall|i: int| 0 <= i < order.len() ==> sorted@[i] == words@[#[trigger] order[i]],
        decreases rest.len(),
    {
        let ghost taken = sorted.len() as int;
        let ghost before = order;
        let word = rest.remove(0);
        let mut slot = sorted.len();
        while slot > 0 && word.date.is_later_than(&sorted[slot - 1].date)
            invariant
                slot <= sorted.len(),
                forall|t: int| slot <= t < sorted.len() ==> word.date.key() > sorted@[t].date.key(),
            decreases slot,
        {
            slot -= 1;
        }
        sorted.insert(slot, word);
        proof {
            // The post goes behind every post that is not older, and before
            // every older one. Having come in last, it stands behind all
            // posts of its own date.
            order = before.insert(slot as int, taken);
            assert forall|i: int, j: int| 0 <= i < j < order.len() implies precedes(
                keys,
                #[trigger] order[i],
                #[trigger] order[j],
            ) by {
                if j == slot && i < slot - 1 {
                    assert(precedes(keys, before[i], before[slot - 1]));
                }
            }
        }
    }
    assert(sorted@ =~= arranged(words@, order));
    sorted
}

/// `Utf8PathBuf::set_extension` of the `camino` crate, on the path that
/// `path` spells: the path with `extension` as its extension. How a path
/// falls into components depends on the platform, so nothing is claimed
/// of the text that comes back. An extension that holds a path separator
/// is left out: the standard library refuses it.
#[verifier::external_body]
fn with_extension(path: &str, extension: &str) -> (renamed: String)
    requires
        !extension@.contains('/'),
        !extension@.contains('\\'),
{
    let mut buf = camino::Utf8PathBuf::from(path);
    buf.set_extension(extension);
    buf.into_string()
}

/// The template of a post's page with the post filled in: the page title,
/// the post's title, its content, and the note on its first appearance
/// where there is one.
pub open spec fn post_template(template: TemplateView, word: WordsView) -> TemplateView {
    let filled = with_slot(
        with_slot(
            with_slot(template, "title"@, word.title + " | nyble.dev"@),
            "words_title"@,
            word.title,
        ),
        "words_content"@,
        word.content,
    );
    match word.original {
        Some(original) => with_slot(filled, "original"@, original_markup(original)),
        None => filled,
    }
}

/// The page of one post.
pub open spec fn post_markup(template: TemplateView, word: WordsView) -> Seq<char> {
    output(post_template(template, word))
}

/// One entry of the index: the block with date, link and title filled in,
/// compiled.
pub open spec fn entry_markup(
    pattern: TemplateView,
    date: Seq<char>,
    link: Seq<char>,
    title: Seq<char>,
) -> Seq<char> {
    output(with_slot(with_slot(with_slot(pattern, "date"@, date), "link"@, link), "title"@, title))
}

/// The index template after the entry of `word`, linking to `link`, was
/// appended to its block `words`.
pub open spec fn with_entry(list: TemplateView, word: WordsView, link: Seq<char>) -> TemplateView {
    with_instance(
        list,
        "words"@,
        entry_markup(
            pattern_of(list, "words"@).unwrap(),
            word.date.text().unwrap(),
            link,
            word.title,
        ),
    )
}

/// The index template after one entry was appended to its block `words`
/// for each of `words`, in order, the entry of the post at position `i`
/// linking to `links[i]`.
pub open spec fn with_entries(
    list: TemplateView,
    words: Seq<WordsView>,
    links: Seq<Seq<char>>,
) -> TemplateView
    decreases words.len(),
{
    if words.len() == 0 {
        list
    } else {
        with_entry(
            with_entries(list, words.drop_last(), links.drop_last()),
            words.last(),
            links.last(),
        )
    }
}

/// Appending entries leaves the body and the slots of the index template
/// alone, and so the block that the entries are instances of.
pub proof fn lemma_with_entries_keeps_pattern(
    list: TemplateView,
    words: Seq<WordsView>,
    links: Seq<Seq<char>>,
)
    ensures
        with_entries(list, words, links).body == list.body,
        with_entries(list, words, links).slots == list.slots,
        pattern_of(with_entries(list, words, links), "words"@) == pattern_of(list, "words"@),
    decreases words.len(),
{
    if words.len() > 0 {
        lemma_with_entries_keeps_pattern(list, words.drop_last(), links.drop_last());
    }
}

/// Whether the date of every post can be written in the format of the
/// index.
pub open spec fn all_dates_writable(words: Seq<WordsView>) -> bool {
    forall|i: int| 0 <= i < words.len() ==> (#[trigger] words[i]).date.text() is Some
}

/// The page of one post, under the name of its file.
#[derive(Debug, Clone, PartialEq, Eq)]
pub struct PostPage {
    pub file_name: String,
    pub content: String,
}

/// All that the dated collection compiles to: one page per post, newest
/// first, and the index.
#[derive(Debug, Clone, PartialEq, Eq)]
pub struct WordsOutput {
    pub posts: Vec<PostPage>,
    pub index: String,
}

/// Why the dated collection could not be compiled.
#[derive(Debug, Clone, Copy, PartialEq, Eq, Structural)]
pub enum WordsError {
    /// There are posts, and the index template defines no block `words`.
    MissingPattern,
    /// The date of a post cannot be written in the format of the index.
    DateFormat,
}

/// The file names of pages, in order.
pub open spec fn links_of(posts: Seq<PostPage>) -> Seq<Seq<char>> {
    Seq::new(posts.len(), |i: int| posts[i].file_name@)
}

/// Whether `out` is what `words`, taken in the order given, compile to
/// with the index template `list` and the page template `post`.
///
/// Without a block `words` in the index template nothing is compiled,
/// unless there is no post at all. Else every date must be writable. Then
/// there is one page per post, in order; and the index holds one entry per
/// post, in order, each linking to the file name of that post's page.
pub open spec fn is_rendering_of(
    list: TemplateView,
    post: TemplateView,
    words: Seq<WordsView>,
    out: Result<WordsOutput, WordsError>,
) -> bool {
    if words.len() > 0 && pattern_of(list, "words"@) is None {
        out matches Err(WordsError::MissingPattern)
    } else if !all_dates_writable(words) {
        out matches Err(WordsError::DateFormat)
    } else {
        &&& out matches Ok(pages)
        &&& pages.posts.len() == words.len()
        &&& forall|i: int|
            0 <= i < words.len() ==> (#[trigger] pages.posts[i]).content@ == post_markup(
                post,
                words[i],
            )
        &&& pages.index@ == output(with_entries(list, words, links_of(pages.posts@)))
    }
}

/// Compiles the page of one post from the page template, which is left as
/// it was.
pub fn post_page(template: &Template, word: &Words) -> (page: String)
    ensures
        page@ == post_markup(template@, word@),
{
    let mut title = word.title.clone();
    title.append(" | nyble.dev");
    let mut doc = template.copy();
    doc.set("title", title.as_str());
    doc.set("words_title", word.title.as_str());
    doc.set("words_content", word.content.as_str());
    match &word.original {
        Some(original) => {
            let note = original.to_string();
            doc.set("original", note.as_str());
        },
        None => {},
    }
    doc.compile()
}

/// Appends the entry of one post to the block `words` of the index
/// template: an instance of the block with the post's date, the given
/// link and the post's title. Without such a block, or with a date that
/// cannot be written, the template stays as it is.
pub fn add_entry(list: &mut Template, word: &Words, link: &str) -> (out: Result<(), WordsError>)
    ensures
        pattern_of(old(list)@, "words"@) is None ==> out == Err::<(), WordsError>(
            WordsError::MissingPattern,
        ),
        pattern_of(old(list)@, "words"@) is Some && word@.date.text() is None ==> out == Err::<
            (),
            WordsError,
        >(WordsError::DateFormat),
        pattern_of(old(list)@, "words"@) is Some && word@.date.text() is Some ==> out is Ok,
        out is Ok ==> final(list)@ == with_entry(old(list)@, word@, link@),
        out is Err ==> final(list)@ == old(list)@,
{
    let mut entry = match list.get_pattern("words") {
        Some(pattern) => pattern,
        None => {
            return Err(WordsError::MissingPattern);
        },
    };
    let date = match word.date.format() {
        Some(date) => date,
        None => {
            return Err(WordsError::DateFormat);
        },
    };
    entry.set("date", date.as_str());
    entry.set("link", link);
    entry.set("title", word.title.as_str());
    list.set_pattern("words", entry);
    Ok(())
}

/// Compiles posts in the order given: the page of each post, and the index
/// with one entry per post.
pub fn render_in_order(list: Template, post: &Template, words: &Vec<Words>) -> (out: Result<
    WordsOutput,
    WordsError,
>)
    ensures
        is_rendering_of(list@, post@, words.deep_view(), out),
{
    let ghost start = list@;
    let mut filled = list;
    let mut posts: Vec<PostPage> = Vec::new();
    let mut i: usize = 0;
    while i < words.len()
        invariant
            i <= words.len(),
            posts.len() == i,
            i > 0 ==> pattern_of(start, "words"@) is Some,
            forall|j: int| 0 <= j < i ==> (#[trigger] words.deep_view()[j]).date.text() is Some,
            forall|j: int|
                0 <= j < i ==> (#[trigger] posts[j]).content@ == post_markup(
                    post@,
                    words.deep_view()[j],
                ),
            start == list@,
            filled@ == with_entries(start, words.deep_view().take(i as int), links_of(posts@)),
        decreases words.len() - i,
    {
        let word = &words[i];
        let ghost done = words.deep_view().take(i as int);
        let ghost linked = links_of(posts@);
        proof {
            lemma_with_entries_keeps_pattern(start, done, linked);
        }
        let content = post_page(post, word);
        proof {
            reveal_strlit("html");
        }
        let file_name = with_extension(word.filename.as_str(), "html");
        match add_entry(&mut filled, word, file_name.as_str()) {
            Ok(()) => {},
            Err(error) => {
                assert(words.deep_view()[i as int] == word@);
                return Err(error);
            },
        }
        posts.push(PostPage { file_name, content });
        assert(words.deep_view().take(i + 1).drop_last() =~= done);
        assert(links_of(posts@).drop_last() =~= linked);
        i += 1;
    }
    assert(words.deep_view().take(i as int) =~= words.deep_view());
    let index = filled.compile();
    Ok(WordsOutput { posts, index })
}

/// The dated collection: the template of the index, the template of a
/// post's page, and the posts.
pub struct WordsThing {
    pub words_list_template: Template,
    pub words_post_template: Template,
    pub all_the_words: Vec<Words>,
}

impl WordsThing {
    /// A collection of the given posts, in any order.
    pub fn new(
        words_list_template: Template,
        words_post_template: Template,
        all_the_words: Vec<Words>,
    ) -> (thing: WordsThing)
        ensures
            thing.words_list_template@ == words_list_template@,
            thing.words_post_template@ == words_post_template@,
            thing.all_the_words@ == all_the_words@,
    {
        WordsThing { words_list_template, words_post_template, all_the_words }
    }

    /// Compiles the collection: the posts are sorted by date, newest
    /// first, posts of one date staying in the order they came in; then
    /// they are compiled in that order.
    pub fn output(self) -> (out: Result<WordsOutput, WordsError>)
        ensures
            exists|order: Seq<int>|
                is_newest_first(date_keys(self.all_the_words@), order) && is_rendering_of(
                    self.words_list_template@,
                    self.words_post_template@,
                    arranged(self.all_the_words.deep_view(), order),
                    out,
                ),
    {
        let WordsThing { words_list_template, words_post_template, all_the_words } = self;
        let ghost unsorted = all_the_words;
        let sorted = sort_newest_first(all_the_words);
        let out = render_in_order(words_list_template, &words_post_template, &sorted);
        proof {
            let order = choose|order: Seq<int>|
                is_newest_first(date_keys(unsorted@), order) && sorted@ == arranged(
                    unsorted@,
                    order,
                );
            assert(sorted.deep_view() =~= arranged(unsorted.deep_view(), order));
        }
        out
    }
}

} // verus!
