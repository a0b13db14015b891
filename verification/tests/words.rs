use bempline::{Document, Options};
use confindent::Confindent;
use jear::date::CalendarDate;
use jear::template::Template;
use jear::words::{
    add_entry, post_page, render_in_order, sort_newest_first, EntryError, Original, Place, Words,
    WordsError, WordsThing,
};

fn template(text: &str) -> Template {
    Template::from_document(Document::from_str(text, Options::default()).unwrap())
}

fn date(year: i32, month: u8, day: u8) -> CalendarDate {
    CalendarDate { year, month, day }
}

fn words(filename: &str, title: &str, date: CalendarDate, original: Option<&str>) -> Words {
    Words {
        filename: filename.to_string(),
        title: title.to_string(),
        date,
        content: format!("<p>{title}</p>"),
        original: original.map(|link| Original::new(link.to_string())),
    }
}

fn titles(words: &[Words]) -> Vec<String> {
    words.iter().map(|w| w.title.clone()).collect()
}

const LIST: &str = "<ul>{%pattern words}<li>{date} <a href=\"{link}\">{title}</a></li>{%end}</ul>";
const POST: &str =
    "<title>{title}</title><h1>{words_title}</h1>{words_content}{%if-set original}<p>Originally {original}</p>{%end}";

#[test]
fn sort_is_newest_first_and_stable() {
    let sorted = sort_newest_first(vec![
        words("a", "first of 2021", date(2021, 1, 1), None),
        words("b", "of 2023", date(2023, 5, 5), None),
        words("c", "second of 2021", date(2021, 1, 1), None),
    ]);
    assert_eq!(titles(&sorted), vec!["of 2023", "first of 2021", "second of 2021"]);
    assert_eq!(sorted[0].date, date(2023, 5, 5));
    assert_eq!(sorted[1].filename, "a");
    assert_eq!(sorted[2].filename, "c");
}

#[test]
fn sort_orders_by_year_then_month_then_day() {
    let sorted = sort_newest_first(vec![
        words("1", "2020-12-31", date(2020, 12, 31), None),
        words("2", "2021-01-02", date(2021, 1, 2), None),
        words("3", "2021-02-01", date(2021, 2, 1), None),
        words("4", "2021-01-10", date(2021, 1, 10), None),
        words("5", "1999-12-31", date(1999, 12, 31), None),
        words("6", "-0001-01-01", date(-1, 1, 1), None),
    ]);
    assert_eq!(
        titles(&sorted),
        vec!["2021-02-01", "2021-01-10", "2021-01-02", "2020-12-31", "1999-12-31", "-0001-01-01"]
    );
}

#[test]
fn sort_keeps_all_posts_of_one_date_in_order() {
    let day = date(2022, 2, 2);
    let sorted = sort_newest_first(vec![
        words("1", "one", day, None),
        words("2", "two", day, None),
        words("3", "three", day, None),
        words("4", "four", day, None),
    ]);
    assert_eq!(titles(&sorted), vec!["one", "two", "three", "four"]);
}

#[test]
fn sort_of_nothing_and_of_one() {
    assert!(sort_newest_first(vec![]).is_empty());
    let one = sort_newest_first(vec![words("a", "A", date(2000, 1, 1), None)]);
    assert_eq!(titles(&one), vec!["A"]);
}

#[test]
fn dates_compare_as_the_calendar_does() {
    assert!(date(2023, 5, 5).is_later_than(&date(2021, 1, 1)));
    assert!(!date(2021, 1, 1).is_later_than(&date(2023, 5, 5)));
    assert!(!date(2021, 1, 1).is_later_than(&date(2021, 1, 1)));
    assert!(date(2021, 2, 1).is_later_than(&date(2021, 1, 31)));
    assert!(date(2021, 1, 2).is_later_than(&date(2021, 1, 1)));
    assert!(date(1, 1, 1).is_later_than(&date(-1, 12, 31)));
}

#[test]
fn original_on_cohost() {
    let original = Original::new("https://cohost.org/gen/post/1-x".to_string());
    assert_eq!(original.from(), Place::Cohost);
    assert_eq!(original.link(), "https://cohost.org/gen/post/1-x");
    assert_eq!(original.to_string(), "<a href=\"https://cohost.org/gen/post/1-x\">on cohost</a>");
}

#[test]
fn original_elsewhere() {
    let original = Original::new("https://example.com/?a=1&b=<2>".to_string());
    assert_eq!(original.from(), Place::Unknown);
    assert_eq!(
        original.to_string(),
        "here: <a href=\"https://example.com/?a=1&b=<2>\">https://example.com/?a=1&amp;b=&lt;2&gt;</a>"
    );
}

#[test]
fn original_place_goes_by_the_prefix() {
    assert_eq!(Original::new("https://cohost.org".to_string()).from(), Place::Cohost);
    assert_eq!(Original::new("https://cohost.organic".to_string()).from(), Place::Cohost);
    assert_eq!(Original::new("https://cohost.or".to_string()).from(), Place::Unknown);
    assert_eq!(Original::new("http://cohost.org/x".to_string()).from(), Place::Unknown);
    assert_eq!(Original::new(" https://cohost.org".to_string()).from(), Place::Unknown);
    assert_eq!(Original::new(String::new()).from(), Place::Unknown);
}

#[test]
fn post_page_fills_title_content_and_original() {
    let post = template(POST);
    let with = words("w.md", "With", date(2020, 1, 1), Some("https://cohost.org/p"));
    assert_eq!(
        post_page(&post, &with),
        "<title>With | nyble.dev</title><h1>With</h1><p>With</p><p>Originally <a href=\"https://cohost.org/p\">on cohost</a></p>"
    );
    let without = words("o.md", "Without", date(2020, 1, 1), None);
    assert_eq!(
        post_page(&post, &without),
        "<title>Without | nyble.dev</title><h1>Without</h1><p>Without</p>"
    );
    // The template itself is left as it was.
    assert_eq!(post.compile(), "<title>{title}</title><h1>{words_title}</h1>{words_content}");
}

#[test]
fn output_sorts_then_compiles_pages_and_index() {
    let thing = WordsThing::new(
        template(LIST),
        template(POST),
        vec![
            words("first.md", "First", date(2021, 1, 1), None),
            words("second.md", "Second", date(2023, 5, 5), Some("https://cohost.org/x/post/1")),
            words("third", "Third", date(2021, 1, 1), Some("https://example.com/a&b")),
        ],
    );
    let out = thing.output().unwrap();
    assert_eq!(out.posts.len(), 3);
    assert_eq!(out.posts[0].file_name, "second.html");
    assert_eq!(
        out.posts[0].content,
        "<title>Second | nyble.dev</title><h1>Second</h1><p>Second</p><p>Originally <a href=\"https://cohost.org/x/post/1\">on cohost</a></p>"
    );
    assert_eq!(out.posts[1].file_name, "first.html");
    assert_eq!(out.posts[1].content, "<title>First | nyble.dev</title><h1>First</h1><p>First</p>");
    assert_eq!(out.posts[2].file_name, "third.html");
    assert_eq!(
        out.posts[2].content,
        "<title>Third | nyble.dev</title><h1>Third</h1><p>Third</p><p>Originally here: <a href=\"https://example.com/a&b\">https://example.com/a&amp;b</a></p>"
    );
    assert_eq!(
        out.index,
        "<ul><li>2023-05-05 <a href=\"second.html\">Second</a></li><li>2021-01-01 <a href=\"first.html\">First</a></li><li>2021-01-01 <a href=\"third.html\">Third</a></li></ul>"
    );
}

#[test]
fn add_entry_appends_one_entry_with_the_given_link() {
    let mut list = template(LIST);
    let word = words("a.md", "A", date(2021, 7, 9), None);
    assert_eq!(add_entry(&mut list, &word, "somewhere/else.html"), Ok(()));
    assert_eq!(
        list.compile(),
        "<ul><li>2021-07-09 <a href=\"somewhere/else.html\">A</a></li></ul>"
    );
    assert_eq!(add_entry(&mut list, &word, ""), Ok(()));
    assert_eq!(
        list.compile(),
        "<ul><li>2021-07-09 <a href=\"somewhere/else.html\">A</a></li><li>2021-07-09 <a href=\"\">A</a></li></ul>"
    );
}

#[test]
fn add_entry_leaves_the_template_alone_when_it_fails() {
    let mut list = template(LIST);
    let bad = words("b.md", "B", date(2021, 2, 30), None);
    assert_eq!(add_entry(&mut list, &bad, "b.html"), Err(WordsError::DateFormat));
    assert_eq!(list.compile(), "<ul></ul>");
    let mut bare = template("<ul></ul>");
    let good = words("a.md", "A", date(2021, 1, 1), None);
    assert_eq!(add_entry(&mut bare, &good, "a.html"), Err(WordsError::MissingPattern));
    assert_eq!(add_entry(&mut bare, &bad, "b.html"), Err(WordsError::MissingPattern));
    assert_eq!(bare.compile(), "<ul></ul>");
}

#[test]
fn render_in_order_does_not_sort() {
    let posts = vec![
        words("old.txt", "Old", date(2001, 1, 1), None),
        words("new.txt", "New", date(2002, 2, 2), None),
    ];
    let out = render_in_order(template(LIST), &template(POST), &posts).unwrap();
    assert_eq!(out.posts[0].file_name, "old.html");
    assert_eq!(out.posts[1].file_name, "new.html");
    assert_eq!(
        out.index,
        "<ul><li>2001-01-01 <a href=\"old.html\">Old</a></li><li>2002-02-02 <a href=\"new.html\">New</a></li></ul>"
    );
}

#[test]
fn output_of_no_posts_is_the_bare_index() {
    let out = WordsThing::new(template(LIST), template(POST), vec![]).output().unwrap();
    assert!(out.posts.is_empty());
    assert_eq!(out.index, "<ul></ul>");
    // Without posts the block is never asked for.
    let out = WordsThing::new(template("<ul></ul>"), template(POST), vec![]).output().unwrap();
    assert_eq!(out.index, "<ul></ul>");
}

#[test]
fn output_fails_without_a_words_block() {
    let thing = WordsThing::new(
        template("<ul>{%pattern posts}{title}{%end}</ul>"),
        template(POST),
        vec![words("a.md", "A", date(2021, 1, 1), None)],
    );
    assert_eq!(thing.output(), Err(WordsError::MissingPattern));
    // The missing block is found before a date that cannot be written.
    let thing = WordsThing::new(
        template("<ul></ul>"),
        template(POST),
        vec![words("a.md", "A", date(2021, 2, 30), None)],
    );
    assert_eq!(thing.output(), Err(WordsError::MissingPattern));
}

#[test]
fn output_fails_on_a_date_that_cannot_be_written() {
    let thing = WordsThing::new(
        template(LIST),
        template(POST),
        vec![
            words("a.md", "A", date(2021, 1, 1), None),
            words("b.md", "B", date(2021, 2, 30), None),
        ],
    );
    assert_eq!(thing.output(), Err(WordsError::DateFormat));
}

fn entry(conf: &str) -> Confindent {
    conf.parse().unwrap()
}

#[test]
fn words_from_a_full_entry() {
    let conf = entry(
        "Words post.md\n\tTitle A Title, With Words\n\tDate 2022-03-04\n\tOriginal https://cohost.org/a/post/2\n",
    );
    let value = conf.child("Words").unwrap();
    let words = Words::from_confindent(value, "<p>c</p>".to_string()).unwrap();
    assert_eq!(words.filename, "post.md");
    assert_eq!(words.title, "A Title, With Words");
    assert_eq!(words.date, date(2022, 3, 4));
    assert_eq!(words.content, "<p>c</p>");
    assert_eq!(words.original, Some(Original::new("https://cohost.org/a/post/2".to_string())));
    assert_eq!(words.original.unwrap().from(), Place::Cohost);
}

#[test]
fn words_from_an_entry_without_original() {
    let conf = entry("Words post.md\n\tDate 1999-12-31\n\tTitle T\n");
    let words = Words::from_confindent(conf.child("Words").unwrap(), String::new()).unwrap();
    assert_eq!(words.filename, "post.md");
    assert_eq!(words.title, "T");
    assert_eq!(words.date, date(1999, 12, 31));
    assert_eq!(words.original, None);
}

#[test]
fn words_from_a_lacking_entry() {
    let conf = entry("Words\n\tTitle T\n\tDate 2022-03-04\n");
    assert_eq!(
        Words::from_confindent(conf.child("Words").unwrap(), String::new()),
        Err(EntryError::MissingName)
    );
    let conf = entry("Words post.md\n\tDate 2022-03-04\n");
    assert_eq!(
        Words::from_confindent(conf.child("Words").unwrap(), String::new()),
        Err(EntryError::MissingTitle)
    );
    let conf = entry("Words post.md\n\tTitle\n\tDate 2022-03-04\n");
    assert_eq!(
        Words::from_confindent(conf.child("Words").unwrap(), String::new()),
        Err(EntryError::MissingTitle)
    );
    let conf = entry("Words post.md\n\tTitle T\n");
    assert_eq!(
        Words::from_confindent(conf.child("Words").unwrap(), String::new()),
        Err(EntryError::MissingDate)
    );
    let conf = entry("Words post.md\n\tTitle T\n\tDate yesterday\n");
    assert_eq!(
        Words::from_confindent(conf.child("Words").unwrap(), String::new()),
        Err(EntryError::BadDate)
    );
    let conf = entry("Words post.md\n\tTitle T\n\tDate 2022-02-30\n");
    assert_eq!(
        Words::from_confindent(conf.child("Words").unwrap(), String::new()),
        Err(EntryError::BadDate)
    );
    // What is missing first is reported.
    let conf = entry("Words\n\tDate yesterday\n");
    assert_eq!(
        Words::from_confindent(conf.child("Words").unwrap(), String::new()),
        Err(EntryError::MissingName)
    );
}
