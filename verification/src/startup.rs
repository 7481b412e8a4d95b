//! What is checked and cleaned before the application starts.

use crate::text::{chars_of, replace_chars, replaced, string_of, trim_chars, trimmed};
use vstd::prelude::*;

verus! {

/// What stands in place of a secret in a message.
pub open spec fn mask() -> Seq<char> {
    seq!['*', '*', '*']
}

/// `message` with every occurrence of each of `secrets` masked, secret by
/// secret. A secret that is not set, or is empty, masks nothing.
pub open spec fn sanitized(message: Seq<char>, secrets: Seq<Option<String>>) -> Seq<char>
    decreases secrets.len(),
{
    if secrets.len() == 0 {
        message
    } else {
        let before = sanitized(message, secrets.drop_last());
        match secrets.last() {
            Some(secret) => replaced(before, secret@, mask()),
            None => before,
        }
    }
}

/// Masks the secrets in an error message before it is shown or logged.
pub fn sanitize_startup_error(message: &str, secrets: &Vec<Option<String>>) -> (r: String)
    ensures
        r@ == sanitized(message@, secrets@),
{
    let stars: Vec<char> = vec!['*', '*', '*'];
    assert(stars@ =~= mask());
    let mut text = chars_of(message);
    let mut n: usize = 0;
    assert(secrets@.take(0) =~= Seq::empty());
    while n < secrets.len()
        invariant
            n <= secrets.len(),
            stars@ == mask(),
            text@ == sanitized(message@, secrets@.take(n as int)),
        decreases secrets.len() - n,
    {
        assert(secrets@.take(n + 1).drop_last() =~= secrets@.take(n as int));
        assert(secrets@.take(n + 1).last() == secrets@[n as int]);
        match &secrets[n] {
            Some(secret) => {
                let needle = chars_of(secret.as_str());
                text = replace_chars(&text, &needle, &stars);
            },
            None => {},
        }
        n = n + 1;
    }
    assert(secrets@.take(secrets.len() as int) =~= secrets@);
    string_of(&text)
}

/// Whether a setting counts as missing: it is not set, or blank.
pub open spec fn is_missing(value: Option<Seq<char>>) -> bool {
    match value {
        Some(text) => trimmed(text).len() == 0,
        None => true,
    }
}

/// Whether a setting counts as missing.
pub fn setting_is_missing(value: Option<&str>) -> (r: bool)
    ensures
        r == is_missing(
            match value {
                Some(text) => Some(text@),
                None => None,
            },
        ),
{
    match value {
        Some(text) => trim_chars(&chars_of(text)).len() == 0,
        None => true,
    }
}

/// The required settings that are missing, of the application key, the
/// application secret and the access token, in that order.
pub fn missing_required_env(
    app_key: Option<&str>,
    app_secret: Option<&str>,
    access_token: Option<&str>,
) -> (r: Vec<&'static str>)
    ensures
        r@.map_values(|name: &'static str| name@) == (if is_missing(
            match app_key {
                Some(text) => Some(text@),
                None => None,
            },
        ) {
            seq!["LONGPORT_APP_KEY"@]
        } else {
            Seq::empty()
        }) + (if is_missing(
            match app_secret {
                Some(text) => Some(text@),
                None => None,
            },
        ) {
            seq!["LONGPORT_APP_SECRET"@]
        } else {
            Seq::empty()
        }) + (if is_missing(
            match access_token {
                Some(text) => Some(text@),
                None => None,
            },
        ) {
            seq!["LONGPORT_ACCESS_TOKEN"@]
        } else {
            Seq::empty()
        }),
{
    let mut missing: Vec<&'static str> = Vec::new();
    if setting_is_missing(app_key) {
        missing.push("LONGPORT_APP_KEY");
    }
    if setting_is_missing(app_secret) {
        missing.push("LONGPORT_APP_SECRET");
    }
    if setting_is_missing(access_token) {
        missing.push("LONGPORT_ACCESS_TOKEN");
    }
    assert(missing@.map_values(|name: &'static str| name@) =~= (if is_missing(
        match app_key {
            Some(text) => Some(text@),
            None => None,
        },
    ) {
        seq!["LONGPORT_APP_KEY"@]
    } else {
        Seq::empty()
    }) + (if is_missing(
        match app_secret {
            Some(text) => Some(text@),
            None => None,
        },
    ) {
        seq!["LONGPORT_APP_SECRET"@]
    } else {
        Seq::empty()
    }) + (if is_missing(
        match access_token {
            Some(text) => Some(text@),
            None => None,
        },
    ) {
        seq!["LONGPORT_ACCESS_TOKEN"@]
    } else {
        Seq::empty()
    }));
    missing
}

/// The language to ask the service for, given the locale of the interface:
/// `zh-CN` and `zh-HK` as they are, `zh-TW` as `zh-HK`, anything else English.
pub fn get_api_language(locale: Option<&str>) -> (r: &'static str)
    ensures
        r@ == match locale {
            Some(l) => if l@ == "zh-CN"@ {
                "zh-CN"@
            } else if l@ == "zh-HK"@ || l@ == "zh-TW"@ {
                "zh-HK"@
            } else {
                "en"@
            },
            None => "en"@,
        },
{
    match locale {
        Some(l) => {
            if crate::text::same_text(l, "zh-CN") {
                "zh-CN"
            } else if crate::text::same_text(l, "zh-HK") || crate::text::same_text(l, "zh-TW") {
                "zh-HK"
            } else {
                "en"
            }
        },
        None => "en",
    }
}

/// The directory that a setting names: its text without the white space around
/// it, unless that is empty.
pub open spec fn named_dir(value: Option<Seq<char>>) -> Option<Seq<char>> {
    match value {
        Some(text) => if trimmed(text).len() == 0 {
            None
        } else {
            Some(trimmed(text))
        },
        None => None,
    }
}

/// The directory that a setting names.
pub fn path_from_env(value: Option<&str>) -> (r: Option<String>)
    ensures
        match r {
            Some(dir) => named_dir(
                match value {
                    Some(text) => Some(text@),
                    None => None,
                },
            ) == Some(dir@),
            None => named_dir(
                match value {
                    Some(text) => Some(text@),
                    None => None,
                },
            ) is None,
        },
{
    match value {
        Some(text) => {
            let t = trim_chars(&chars_of(text));
            if t.len() == 0 {
                None
            } else {
                Some(string_of(&t))
            }
        },
        None => None,
    }
}

/// The directory that overrides the default one: what the primary setting
/// names, or else what the legacy setting names.
pub fn dir_override(primary: Option<&str>, legacy: Option<&str>) -> (r: Option<String>)
    ensures
        match r {
            Some(dir) => Some(dir@) == (match named_dir(
                match primary {
                    Some(text) => Some(text@),
                    None => None,
                },
            ) {
                Some(d) => Some(d),
                None => named_dir(
                    match legacy {
                        Some(text) => Some(text@),
                        None => None,
                    },
                ),
            }),
            None => named_dir(
                match primary {
                    Some(text) => Some(text@),
                    None => None,
                },
            ) is None && named_dir(
                match legacy {
                    Some(text) => Some(text@),
                    None => None,
                },
            ) is None,
        },
{
    match path_from_env(primary) {
        Some(dir) => Some(dir),
        None => path_from_env(legacy),
    }
}

} // verus!
