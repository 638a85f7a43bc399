//! Language selection for the user interface.
//!
//! The interface is bilingual: every user-visible string exists in English
//! and in Simplified Chinese. Which one is shown is decided once, from the
//! explicit override variable and the locale variables of the environment.
//! Reading the environment is the host's job; the decision from the values
//! read is made here.

use vstd::prelude::*;

verus! {

/// Does this explicit override value ask for Chinese? `None` when the value
/// decides nothing.
pub open spec fn explicit_lang_choice_spec(v: Seq<char>) -> Option<bool> {
    if v == "zh"@ || v == "zh-cn"@ || v == "zh_cn"@ || v == "zh-hans"@ || v == "zh_hans"@ {
        Some(true)
    } else if v == "en"@ || v == "en-us"@ || v == "en_us"@ {
        Some(false)
    } else {
        None
    }
}

/// Decide the explicit override from an already trimmed and lower-cased
/// value.
pub fn explicit_lang_choice(v: &str) -> (r: Option<bool>)
    ensures
        r == explicit_lang_choice_spec(v@),
{
    if crate::text::str_eq(v, "zh") || crate::text::str_eq(v, "zh-cn") || crate::text::str_eq(
        v,
        "zh_cn",
    ) || crate::text::str_eq(v, "zh-hans") || crate::text::str_eq(v, "zh_hans") {
        Some(true)
    } else if crate::text::str_eq(v, "en") || crate::text::str_eq(v, "en-us")
        || crate::text::str_eq(v, "en_us") {
        Some(false)
    } else {
        None
    }
}

/// What the whole language decision returns, given the normalised explicit
/// override (if the variable was set), the lower-cased locale variable
/// values, and what the platform says about the user locale.
/// Some locale variable value mentions Chinese.
pub open spec fn locale_says_zh_spec(locale_values: Seq<String>) -> bool {
    exists|i: int|
        0 <= i < locale_values.len() && crate::text::contains_spec(
            (#[trigger] locale_values[i])@,
            "zh"@,
        )
}

pub open spec fn use_zh_cn_spec(
    explicit: Option<Seq<char>>,
    locale_values: Seq<String>,
    platform_locale_is_zh: bool,
) -> bool {
    match explicit {
        Some(v) => match explicit_lang_choice_spec(v) {
            Some(b) => b,
            None => locale_says_zh_spec(locale_values) || platform_locale_is_zh,
        },
        None => locale_says_zh_spec(locale_values) || platform_locale_is_zh,
    }
}

/// Decide whether the Chinese interface is used.
///
/// `explicit` is the override variable's value, already trimmed and
/// lower-cased; `locale_values` are the values of the locale variables that
/// were set, already lower-cased; `platform_locale_is_zh` is the platform's
/// own answer where it has one (on other platforms, `false`).
pub fn use_zh_cn(
    explicit: Option<&String>,
    locale_values: &Vec<String>,
    platform_locale_is_zh: bool,
) -> (r: bool)
    ensures
        r == use_zh_cn_spec(
            match explicit {
                Some(e) => Some(e@),
                None => None,
            },
            locale_values@,
            platform_locale_is_zh,
        ),
{
    let choice: Option<bool> = match explicit {
        Some(e) => explicit_lang_choice(e.as_str()),
        None => None,
    };
    proof {
        assert(choice == match explicit {
            Some(e) => explicit_lang_choice_spec(e@),
            None => None::<bool>,
        });
    }
    if let Some(b) = choice {
        return b;
    }
    let mut i: usize = 0;
    while i < locale_values.len()
        invariant
            choice is None,
            choice == match explicit {
                Some(e) => explicit_lang_choice_spec(e@),
                None => None::<bool>,
            },
            0 <= i <= locale_values.len(),
            forall|j: int|
                0 <= j < i ==> !crate::text::contains_spec(
                    (#[trigger] locale_values@[j])@,
                    "zh"@,
                ),
        decreases locale_values.len() - i,
    {
        if crate::text::contains(locale_values[i].as_str(), "zh") {
            proof {
                assert(crate::text::contains_spec(locale_values@[i as int]@, "zh"@));
                assert(locale_says_zh_spec(locale_values@));
            }
            return true;
        }
        i += 1;
    }
    platform_locale_is_zh
}

/// Pick the string of the language in use.
pub fn tr<'a>(en: &'a str, zh_cn: &'a str, use_zh: bool) -> (r: &'a str)
    ensures
        r@ == if use_zh {
            zh_cn@
        } else {
            en@
        },
{
    if use_zh {
        zh_cn
    } else {
        en
    }
}

} // verus!
