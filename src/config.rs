use vstd::prelude::*;

use crate::document::{
    entries, insert_table, insert_text, lookup, new_table, parse_document, parsed_document,
    render_document, rendered_document, Entry, Found, plain_table,
};

verus! {

/// The whole configuration: one table per concern.
pub struct Config {
    pub logging: Logging,
    pub discord: Discord,
}

/// The `[logging]` table.
pub struct Logging {
    pub level: String,
}

/// The `[discord]` table.
pub struct Discord {
    pub bot_token: String,
}

impl View for Config {
    /// The log level and the bot token.
    type V = (Seq<char>, Seq<char>);

    open spec fn view(&self) -> (Seq<char>, Seq<char>) {
        (self.logging.level@, self.discord.bot_token@)
    }
}

pub open spec fn logging_key() -> Seq<char> {
    seq!['l', 'o', 'g', 'g', 'i', 'n', 'g']
}

pub open spec fn level_key() -> Seq<char> {
    seq!['l', 'e', 'v', 'e', 'l']
}

pub open spec fn discord_key() -> Seq<char> {
    seq!['d', 'i', 's', 'c', 'o', 'r', 'd']
}

pub open spec fn bot_token_key() -> Seq<char> {
    seq!['b', 'o', 't', '_', 't', 'o', 'k', 'e', 'n']
}

/// The level that stands in for one that is absent or cannot be read.
pub open spec fn fallback_level() -> Seq<char> {
    seq!['D', 'e', 'b', 'u', 'g']
}

/// The token that stands in for one that is absent or cannot be read.
pub open spec fn fallback_token() -> Seq<char> {
    Seq::empty()
}

/// What one section of a document gives for one key: the string stored there, the
/// fallback where the section is a table without that key, and `None` where the section
/// is absent or not a table, or the key holds something other than a string.
pub open spec fn section_value(
    doc: Map<Seq<char>, Entry>,
    section: Seq<char>,
    key: Seq<char>,
    fallback: Seq<char>,
) -> Option<Seq<char>> {
    if doc.contains_key(section) {
        match doc[section] {
            Entry::Table(sub) => {
                if !sub.contains_key(key) {
                    Some(fallback)
                } else {
                    match sub[key] {
                        Entry::Text(s) => Some(s),
                        _ => None,
                    }
                }
            },
            _ => None,
        }
    } else {
        None
    }
}

pub open spec fn level_in(doc: Map<Seq<char>, Entry>) -> Option<Seq<char>> {
    section_value(doc, logging_key(), level_key(), fallback_level())
}

pub open spec fn token_in(doc: Map<Seq<char>, Entry>) -> Option<Seq<char>> {
    section_value(doc, discord_key(), bot_token_key(), fallback_token())
}

/// The configuration a document holds as a whole: both sections must be readable.
pub open spec fn config_in(doc: Map<Seq<char>, Entry>) -> Option<(Seq<char>, Seq<char>)> {
    match (level_in(doc), token_in(doc)) {
        (Some(l), Some(t)) => Some((l, t)),
        _ => None,
    }
}

/// The configuration that TOML text holds as a whole.
pub open spec fn config_of_text(text: Seq<char>) -> Option<(Seq<char>, Seq<char>)> {
    match parsed_document(text) {
        Some(doc) => config_in(doc),
        None => None,
    }
}

/// Each section recovered on its own, with its fallback where it cannot be read.
pub open spec fn repaired_in(doc: Option<Map<Seq<char>, Entry>>) -> (Seq<char>, Seq<char>) {
    match doc {
        Some(d) => (
            match level_in(d) {
                Some(l) => l,
                None => fallback_level(),
            },
            match token_in(d) {
                Some(t) => t,
                None => fallback_token(),
            },
        ),
        None => (fallback_level(), fallback_token()),
    }
}

/// The table that stands for a configuration.
pub open spec fn config_entries(c: (Seq<char>, Seq<char>)) -> Map<Seq<char>, Entry> {
    Map::empty().insert(
        logging_key(),
        Entry::Table(Map::empty().insert(level_key(), Entry::Text(c.0))),
    ).insert(discord_key(), Entry::Table(Map::empty().insert(bot_token_key(), Entry::Text(c.1))))
}

/// The log level used where the file's own cannot be read.
pub fn default_logging_level() -> (r: String)
    ensures
        r@ == fallback_level(),
{
    let r = "Debug".to_owned();
    proof {
        reveal_strlit("Debug");
    }
    assert(r@ =~= fallback_level());
    r
}

/// The bot token used where the file's own cannot be read.
pub fn default_discord() -> (r: String)
    ensures
        r@ == fallback_token(),
{
    let r = "".to_owned();
    proof {
        reveal_strlit("");
    }
    assert(r@ =~= fallback_token());
    r
}

fn read_section(doc: &toml::Table, section: &str, key: &str, fallback: String) -> (r: Option<
    String,
>)
    ensures
        match r {
            Some(s) => section_value(entries(*doc), section@, key@, fallback@) == Some(s@),
            None => section_value(entries(*doc), section@, key@, fallback@) is None,
        },
{
    match lookup(doc, section) {
        Found::Table(sub) => match lookup(sub, key) {
            Found::Missing => Some(fallback),
            Found::Text(s) => Some(s),
            _ => None,
        },
        _ => None,
    }
}

fn read_level(doc: &toml::Table) -> (r: Option<String>)
    ensures
        match r {
            Some(s) => level_in(entries(*doc)) == Some(s@),
            None => level_in(entries(*doc)) is None,
        },
{
    let r = read_section(doc, "logging", "level", default_logging_level());
    proof {
        reveal_strlit("logging");
        reveal_strlit("level");
        assert("logging"@ =~= logging_key());
        assert("level"@ =~= level_key());
    }
    r
}

fn read_token(doc: &toml::Table) -> (r: Option<String>)
    ensures
        match r {
            Some(s) => token_in(entries(*doc)) == Some(s@),
            None => token_in(entries(*doc)) is None,
        },
{
    let r = read_section(doc, "discord", "bot_token", default_discord());
    proof {
        reveal_strlit("discord");
        reveal_strlit("bot_token");
        assert("discord"@ =~= discord_key());
        assert("bot_token"@ =~= bot_token_key());
    }
    r
}

/// The configuration held by a parsed document, or `None` where a section is absent,
/// is not a table, or holds a value of the wrong type.
pub fn config_from_table(doc: &toml::Table) -> (r: Option<Config>)
    ensures
        match r {
            Some(c) => config_in(entries(*doc)) == Some(c@),
            None => config_in(entries(*doc)) is None,
        },
{
    match (read_level(doc), read_token(doc)) {
        (Some(level), Some(bot_token)) => Some(
            Config { logging: Logging { level }, discord: Discord { bot_token } },
        ),
        _ => None,
    }
}

/// The configuration that TOML text holds as a whole, or `None` where the text is not
/// TOML or does not have the configuration's shape.
pub fn parse_config(text: &str) -> (r: Option<Config>)
    ensures
        match r {
            Some(c) => config_of_text(text@) == Some(c@),
            None => config_of_text(text@) is None,
        },
{
    match parse_document(text) {
        Some(doc) => config_from_table(&doc),
        None => None,
    }
}

/// Recovers each section of a document on its own; a section that cannot be read, or a
/// document that is not TOML (`None`), gives the fallback values.
pub fn repaired_from_table(doc: Option<&toml::Table>) -> (r: Config)
    ensures
        r@ == repaired_in(
            match doc {
                Some(d) => Some(entries(*d)),
                None => None,
            },
        ),
{
    match doc {
        Some(d) => {
            let level = match read_level(d) {
                Some(l) => l,
                None => default_logging_level(),
            };
            let bot_token = match read_token(d) {
                Some(t) => t,
                None => default_discord(),
            };
            Config { logging: Logging { level }, discord: Discord { bot_token } }
        },
        None => Config {
            logging: Logging { level: default_logging_level() },
            discord: Discord { bot_token: default_discord() },
        },
    }
}

/// Recovers what it can of text that does not hold a configuration as a whole.
pub fn repair_config(text: &str) -> (r: Config)
    ensures
        r@ == repaired_in(parsed_document(text@)),
{
    match parse_document(text) {
        Some(doc) => repaired_from_table(Some(&doc)),
        None => repaired_from_table(None),
    }
}

/// The TOML table that stands for a configuration.
pub fn config_table(c: &Config) -> (r: toml::Table)
    ensures
        entries(r) == config_entries(c@),
{
    let mut logging = new_table();
    insert_text(&mut logging, "level".to_owned(), c.logging.level.clone());
    let mut discord = new_table();
    insert_text(&mut discord, "bot_token".to_owned(), c.discord.bot_token.clone());
    let mut t = new_table();
    insert_table(&mut t, "logging".to_owned(), logging);
    insert_table(&mut t, "discord".to_owned(), discord);
    proof {
        reveal_strlit("logging");
        reveal_strlit("level");
        reveal_strlit("discord");
        reveal_strlit("bot_token");
        assert("logging"@ =~= logging_key());
        assert("level"@ =~= level_key());
        assert("discord"@ =~= discord_key());
        assert("bot_token"@ =~= bot_token_key());
    }
    assert(entries(t) =~= config_entries(c@));
    t
}

/// The text written for a configuration.
pub fn render_config(c: &Config) -> (r: String)
    ensures
        r@ == rendered_document(config_entries(c@)),
{
    let t = config_table(c);
    assert(plain_table(entries(t)));
    match render_document(&t) {
        Some(s) => s,
        None => {
            proof {
                assert(false);
            }
            String::new()
        },
    }
}

/// Whether the configuration deserves the advisory warning on its log level: it does
/// exactly when the level is empty.
pub fn verify_config(config: &Config) -> (warn: bool)
    ensures
        warn == (config.logging.level@.len() == 0),
{
    config.logging.level.as_str().is_empty()
}

} // verus!
