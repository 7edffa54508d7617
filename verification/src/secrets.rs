//! The settings that the surrounding services read from a TOML document.

use crate::laws::starts_with;
use crate::outside::{
    document_lists, document_texts, option_texts, toml_error_text, toml_list, toml_members,
    toml_parse, toml_text,
};
use crate::text::{join, join_texts, texts};
use vstd::prelude::*;

verus! {

/// The settings, each the empty text where the document does not give it.
#[derive(Debug, PartialEq, Eq)]
pub struct Secrets {
    pub secret_key: String,
    pub db_name: String,
    pub db_pw: String,
    pub db_port: String,
    pub no_reply_email: String,
    pub smtp_username: String,
    pub smtp_password: String,
    pub smtp_relay: String,
    pub db_ws_url: String,
    pub owner: String,
    pub repo: String,
}

/// The text under `key`, or the empty text.
pub open spec fn text_or_empty(texts: Map<Seq<char>, Seq<char>>, key: Seq<char>) -> Seq<char> {
    if texts.contains_key(key) {
        texts[key]
    } else {
        Seq::empty()
    }
}

/// The items that are texts, in order.
pub open spec fn present(items: Seq<Option<Seq<char>>>) -> Seq<Seq<char>>
    decreases items.len(),
{
    if items.len() == 0 {
        Seq::empty()
    } else {
        match items.last() {
            Some(s) => present(items.drop_last()).push(s),
            None => present(items.drop_last()),
        }
    }
}

/// The repositories: the texts of the list under `REPO`, with commas
/// between them.
pub open spec fn repos_of(lists: Map<Seq<char>, Seq<Option<Seq<char>>>>) -> Option<Seq<char>> {
    if lists.contains_key("REPO"@) {
        Some(join(present(lists["REPO"@]), ","@))
    } else {
        None
    }
}

pub open spec fn repos_or_empty(lists: Map<Seq<char>, Seq<Option<Seq<char>>>>) -> Seq<char> {
    match repos_of(lists) {
        Some(s) => s,
        None => Seq::empty(),
    }
}

/// `so_far`, and `key` after it where there is no text under it.
pub open spec fn with_missing(
    texts: Map<Seq<char>, Seq<char>>,
    key: Seq<char>,
    so_far: Seq<Seq<char>>,
) -> Seq<Seq<char>> {
    if texts.contains_key(key) {
        so_far
    } else {
        so_far.push(key)
    }
}

/// The keys that a document does not give, in the order in which the
/// settings are read.
pub open spec fn missing_keys(
    texts: Map<Seq<char>, Seq<char>>,
    lists: Map<Seq<char>, Seq<Option<Seq<char>>>>,
) -> Seq<Seq<char>> {
    let m = with_missing(texts, "SECRET_KEY"@, Seq::empty());
    let m = with_missing(texts, "DB_NAME"@, m);
    let m = with_missing(texts, "DB_PW"@, m);
    let m = with_missing(texts, "DB_PORT"@, m);
    let m = with_missing(texts, "NO_REPLY_EMAIL"@, m);
    let m = with_missing(texts, "SMTP_USERNAME"@, m);
    let m = with_missing(texts, "SMTP_PASSWORD"@, m);
    let m = with_missing(texts, "SMTP_RELAY"@, m);
    let m = with_missing(texts, "DB_WS_URL"@, m);
    let m = with_missing(texts, "OWNER"@, m);
    if repos_of(lists) is Some {
        m
    } else {
        m.push("REPO"@)
    }
}

/// The settings and the missing keys are those of a document with these
/// string members and these array members.
pub open spec fn read_from(
    found: (Secrets, Vec<String>),
    texts_of: Map<Seq<char>, Seq<char>>,
    lists: Map<Seq<char>, Seq<Option<Seq<char>>>>,
) -> bool {
    &&& found.0.secret_key@ == text_or_empty(texts_of, "SECRET_KEY"@)
    &&& found.0.db_name@ == text_or_empty(texts_of, "DB_NAME"@)
    &&& found.0.db_pw@ == text_or_empty(texts_of, "DB_PW"@)
    &&& found.0.db_port@ == text_or_empty(texts_of, "DB_PORT"@)
    &&& found.0.no_reply_email@ == text_or_empty(texts_of, "NO_REPLY_EMAIL"@)
    &&& found.0.smtp_username@ == text_or_empty(texts_of, "SMTP_USERNAME"@)
    &&& found.0.smtp_password@ == text_or_empty(texts_of, "SMTP_PASSWORD"@)
    &&& found.0.smtp_relay@ == text_or_empty(texts_of, "SMTP_RELAY"@)
    &&& found.0.db_ws_url@ == text_or_empty(texts_of, "DB_WS_URL"@)
    &&& found.0.owner@ == text_or_empty(texts_of, "OWNER"@)
    &&& found.0.repo@ == repos_or_empty(lists)
    &&& texts(found.1@) == missing_keys(texts_of, lists)
}

/// The start of the error of a text that is no document.
pub open spec fn parse_failure() -> Seq<char> {
    "Failed to parse Secrets.toml: "@
}

/// The text under `key`, where the document has one.
pub fn load_secret(data: &toml::Value, key: &str) -> (r: Option<String>)
    ensures
        match r {
            Some(s) => document_texts(*data).contains_key(key@) && s@ == document_texts(
                *data,
            )[key@],
            None => !document_texts(*data).contains_key(key@),
        },
{
    toml_text(data, key)
}

/// The repositories, where the document has a list of them.
pub fn load_repos(data: &toml::Value) -> (r: Option<String>)
    ensures
        match r {
            Some(s) => repos_of(document_lists(*data)) == Some(s@),
            None => repos_of(document_lists(*data)) is None,
        },
{
    match toml_list(data, "REPO") {
        None => None,
        Some(items) => {
            let ghost all = option_texts(items@);
            let mut names: Vec<String> = Vec::new();
            let mut i: usize = 0;
            assert(all.take(0) =~= Seq::empty());
            assert(texts(names@) =~= Seq::empty());
            while i < items.len()
                invariant
                    i <= items.len(),
                    all == option_texts(items@),
                    texts(names@) == present(all.take(i as int)),
                decreases items.len() - i,
            {
                proof {
                    assert(all.take(i + 1).drop_last() =~= all.take(i as int));
                    assert(all.take(i + 1).last() == all[i as int]);
                }
                match &items[i] {
                    Some(name) => {
                        let ghost before = texts(names@);
                        names.push(name.clone());
                        assert(texts(names@) =~= before.push(name@));
                    },
                    None => {},
                }
                i += 1;
            }
            assert(all.take(items.len() as int) =~= all);
            Some(join_texts(&names, ","))
        },
    }
}

/// The text under `key` or the empty text; `key` is added to `missing`
/// where the document has no text under it.
fn read_or_note(data: &toml::Value, key: &str, missing: &mut Vec<String>) -> (r: String)
    ensures
        r@ == text_or_empty(document_texts(*data), key@),
        texts(final(missing)@) == with_missing(
            document_texts(*data),
            key@,
            texts(old(missing)@),
        ),
{
    match load_secret(data, key) {
        Some(value) => value,
        None => {
            let ghost before = texts(missing@);
            missing.push(String::from_str(key));
            assert(texts(missing@) =~= before.push(key@));
            String::new()
        },
    }
}

impl Secrets {
    /// The settings of the document, and the keys that it does not give.
    pub fn from_document(data: &toml::Value) -> (r: (Secrets, Vec<String>))
        ensures
            read_from(r, document_texts(*data), document_lists(*data)),
    {
        let mut missing: Vec<String> = Vec::new();
        assert(texts(missing@) =~= Seq::empty());
        let secret_key = read_or_note(data, "SECRET_KEY", &mut missing);
        let db_name = read_or_note(data, "DB_NAME", &mut missing);
        let db_pw = read_or_note(data, "DB_PW", &mut missing);
        let db_port = read_or_note(data, "DB_PORT", &mut missing);
        let no_reply_email = read_or_note(data, "NO_REPLY_EMAIL", &mut missing);
        let smtp_username = read_or_note(data, "SMTP_USERNAME", &mut missing);
        let smtp_password = read_or_note(data, "SMTP_PASSWORD", &mut missing);
        let smtp_relay = read_or_note(data, "SMTP_RELAY", &mut missing);
        let db_ws_url = read_or_note(data, "DB_WS_URL", &mut missing);
        let owner = read_or_note(data, "OWNER", &mut missing);
        let repo = match load_repos(data) {
            Some(repos) => repos,
            None => {
                let ghost before = texts(missing@);
                missing.push(String::from_str("REPO"));
                assert(texts(missing@) =~= before.push("REPO"@));
                String::new()
            },
        };
        (
            Secrets {
                secret_key,
                db_name,
                db_pw,
                db_port,
                no_reply_email,
                smtp_username,
                smtp_password,
                smtp_relay,
                db_ws_url,
                owner,
                repo,
            },
            missing,
        )
    }

    /// The settings that the text of a TOML document gives, and the keys
    /// that it does not give; or the words of the parser where the text is
    /// no document.
    pub fn parse(contents: &str) -> (r: Result<(Secrets, Vec<String>), String>)
        ensures
            match r {
                Ok(found) => toml_members(contents@) matches Some(members) && read_from(
                    found,
                    members.0,
                    members.1,
                ),
                Err(message) => toml_members(contents@) is None && starts_with(
                    message@,
                    parse_failure(),
                ),
            },
    {
        match toml_parse(contents) {
            Ok(document) => Ok(Self::from_document(&document)),
            Err(e) => {
                let mut message = String::from_str("Failed to parse Secrets.toml: ");
                message.append(toml_error_text(&e).as_str());
                assert(message@.subrange(0, parse_failure().len() as int) =~= parse_failure());
                Err(message)
            },
        }
    }
}

} // verus!
