use confindent::Confindent;
use jear::config::{ConfigError, JearConfig};

const FULL: &str = "NybleRoot /srv/site\nOutput /srv/out\nBuild index.html\nBuild about.html\nCopy styles\n# a comment\n\nSymlink media\nSymlink fonts\nSillyGifs /srv/gifs\n\tSymlink true\n";

fn make(text: &str) -> Result<JearConfig, ConfigError> {
    JearConfig::make(text.parse::<Confindent>().unwrap())
}

fn strings(items: &[&str]) -> Vec<String> {
    items.iter().map(|s| s.to_string()).collect()
}

#[test]
fn make_reads_a_full_configuration() {
    let conf = make(FULL).unwrap();
    assert_eq!(
        conf,
        JearConfig {
            nyble_root: "/srv/site".to_string(),
            output: "/srv/out".to_string(),
            bempline_build: strings(&["index.html", "about.html"]),
            copy: strings(&["styles"]),
            symlink: strings(&["media", "fonts"]),
            silly_gifs: "/srv/gifs".to_string(),
            silly_gifs_sym: true,
        }
    );
}

#[test]
fn make_reads_a_small_configuration() {
    let conf = make("SillyGifs gifs\n\tSymlink false\nOutput out\nNybleRoot root\n").unwrap();
    assert_eq!(conf.nyble_root, "root");
    assert_eq!(conf.output, "out");
    assert!(conf.bempline_build.is_empty());
    assert!(conf.copy.is_empty());
    assert!(conf.symlink.is_empty());
    assert_eq!(conf.silly_gifs, "gifs");
    assert!(!conf.silly_gifs_sym);
}

#[test]
fn make_takes_the_first_of_repeated_entries() {
    let conf = make(
        "NybleRoot one\nNybleRoot two\nOutput out\nSillyGifs gifs\n\tSymlink false\n\tSymlink true\nSillyGifs other\n\tSymlink true\n",
    )
    .unwrap();
    assert_eq!(conf.nyble_root, "one");
    assert_eq!(conf.silly_gifs, "gifs");
    assert!(!conf.silly_gifs_sym);
}

#[test]
fn make_reads_the_link_choice_in_any_letter_case() {
    for (text, choice) in [("TRUE", true), ("True", true), ("tRuE", true), ("FALSE", false), ("False", false)] {
        let conf = make(&format!("NybleRoot r\nOutput o\nSillyGifs g\n\tSymlink {text}\n")).unwrap();
        assert_eq!(conf.silly_gifs_sym, choice);
    }
}

#[test]
fn make_refuses_a_missing_root() {
    assert_eq!(make("Output o\nSillyGifs g\n\tSymlink true\n"), Err(ConfigError::MissingNybleRoot));
    assert_eq!(make("NybleRoot\nOutput o\nSillyGifs g\n\tSymlink true\n"), Err(ConfigError::MissingNybleRoot));
    assert_eq!(make(""), Err(ConfigError::MissingNybleRoot));
}

#[test]
fn make_refuses_a_missing_output() {
    assert_eq!(make("NybleRoot r\nSillyGifs g\n\tSymlink true\n"), Err(ConfigError::MissingOutput));
    assert_eq!(make("NybleRoot r\n"), Err(ConfigError::MissingOutput));
}

#[test]
fn make_refuses_a_listed_entry_without_value() {
    assert_eq!(
        make("NybleRoot r\nOutput o\nBuild a\nBuild\nSillyGifs g\n\tSymlink true\n"),
        Err(ConfigError::MissingValue)
    );
    assert_eq!(
        make("NybleRoot r\nOutput o\nCopy\nSillyGifs g\n\tSymlink true\n"),
        Err(ConfigError::MissingValue)
    );
    assert_eq!(
        make("NybleRoot r\nOutput o\nSymlink a\nSymlink\nSymlink c\n"),
        Err(ConfigError::MissingValue)
    );
}

#[test]
fn make_refuses_missing_gifs() {
    assert_eq!(make("NybleRoot r\nOutput o\n"), Err(ConfigError::SillyGifs));
    assert_eq!(make("NybleRoot r\nOutput o\nSillyGifs\n\tSymlink true\n"), Err(ConfigError::SillyGifs));
}

#[test]
fn make_refuses_a_missing_link_choice() {
    assert_eq!(make("NybleRoot r\nOutput o\nSillyGifs g\n"), Err(ConfigError::MissingSymlink));
    assert_eq!(make("NybleRoot r\nOutput o\nSillyGifs g\n\tSymlink\n"), Err(ConfigError::MissingSymlink));
    // A `Symlink` beside `SillyGifs` is not one below it.
    assert_eq!(make("NybleRoot r\nOutput o\nSillyGifs g\nSymlink true\n"), Err(ConfigError::MissingSymlink));
}

#[test]
fn make_refuses_a_confusing_link_choice() {
    assert_eq!(
        make("NybleRoot r\nOutput o\nSillyGifs g\n\tSymlink Maybe\n"),
        Err(ConfigError::ConfusingSymlink("Maybe".to_string()))
    );
    assert_eq!(
        make("NybleRoot r\nOutput o\nSillyGifs g\n\tSymlink yes please\n"),
        Err(ConfigError::ConfusingSymlink("yes please".to_string()))
    );
}

#[test]
fn make_reports_what_is_wrong_first() {
    assert_eq!(make("Build\nSillyGifs g\n\tSymlink maybe\n"), Err(ConfigError::MissingNybleRoot));
    assert_eq!(make("NybleRoot r\nBuild\n"), Err(ConfigError::MissingOutput));
    assert_eq!(make("NybleRoot r\nOutput o\nBuild\n"), Err(ConfigError::MissingValue));
}

#[test]
fn refusals_have_their_messages() {
    assert_eq!(ConfigError::MissingNybleRoot.message(), "Missing NybleRoot");
    assert_eq!(ConfigError::MissingOutput.message(), "Missing Output");
    assert_eq!(ConfigError::SillyGifs.message(), "Missing or malformed SillyGifs");
    assert_eq!(
        ConfigError::MissingSymlink.message(),
        "SillyGifs.Symlink is required. true for symlink, false for hardlink"
    );
    assert_eq!(
        ConfigError::ConfusingSymlink("Maybe".to_string()).message(),
        "SillyGifs.Symlink value 'Maybe' is confusing"
    );
    assert_eq!(
        ConfigError::MissingValue.message(),
        "Missing value in a Build, Copy or Symlink entry"
    );
}
