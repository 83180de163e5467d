//! Locale detection: turning a `LANG`-style environment value (for example
//! `en_US.UTF-8`) into a locale tag (`en-US`). Reading the environment itself
//! is left to the host program; this module holds the pure computation.

use vstd::prelude::*;
use vstd::string::StrSliceExecFns;
use vstd::string::StringExecFns;

use crate::text::push_char;

verus! {

/// `'_'` is rendered as `'-'`; every other character stays as it is.
pub open spec fn dash_for_underscore(c: char) -> char {
    if c == '_' {
        '-'
    } else {
        c
    }
}

/// `s` with every underscore replaced by a dash.
pub open spec fn dashed(s: Seq<char>) -> Seq<char> {
    s.map_values(|c: char| dash_for_underscore(c))
}

/// The position of the first `'.'` in `s`, or `s.len()` if there is none.
pub open spec fn first_dot(s: Seq<char>) -> int
    decreases s.len(),
{
    if s.len() == 0 {
        0
    } else if s[0] == '.' {
        0
    } else {
        1 + first_dot(s.skip(1))
    }
}

/// The locale tag for a `LANG`-style value: everything before the first
/// `'.'`, with underscores replaced by dashes; `"en"` for an empty value.
pub open spec fn locale_tag(lang: Seq<char>) -> Seq<char> {
    if lang.len() == 0 {
        "en"@
    } else {
        dashed(lang.take(first_dot(lang)))
    }
}

/// A position before which there is no dot, and which is the length or a
/// dot itself, is exactly `first_dot`.
proof fn lemma_first_dot_characterization(s: Seq<char>, k: int)
    requires
        0 <= k <= s.len(),
        forall|j: int| 0 <= j < k ==> s[j] != '.',
        k < s.len() ==> s[k] == '.',
    ensures
        first_dot(s) == k,
    decreases s.len(),
{
    if s.len() != 0 && s[0] != '.' {
        assert forall|j: int| 0 <= j < k - 1 implies s.skip(1)[j] != '.' by {
            assert(s.skip(1)[j] == s[j + 1]);
        }
        if k - 1 < s.skip(1).len() {
            assert(s.skip(1)[k - 1] == s[k]);
        }
        lemma_first_dot_characterization(s.skip(1), k - 1);
    }
}

/// Derives the locale tag from a `LANG`-style value: the part before the
/// first `'.'`, with `'_'` replaced by `'-'`; an empty value yields `"en"`.
pub fn detect_locale_by_lang_value(lang: &str) -> (r: String)
    ensures
        r@ == locale_tag(lang@),
{
    let n = lang.unicode_len();
    if n == 0 {
        let r = String::from_str("en");
        return r;
    }
    let mut out = String::new();
    let mut i: usize = 0;
    while i < n
        invariant
            n == lang@.len(),
            0 <= i <= n,
            forall|j: int| 0 <= j < i ==> lang@[j] != '.',
            out@ == dashed(lang@.take(i as int)),
        decreases n - i,
    {
        let c = lang.get_char(i);
        if c == '.' {
            proof {
                lemma_first_dot_characterization(lang@, i as int);
            }
            return out;
        }
        let mapped = if c == '_' {
            '-'
        } else {
            c
        };
        push_char(&mut out, mapped);
        proof {
            assert(dashed(lang@.take(i + 1 as int)) =~= dashed(lang@.take(i as int)) + seq![
                dash_for_underscore(lang@[i as int]),
            ]);
        }
        i = i + 1;
    }
    proof {
        lemma_first_dot_characterization(lang@, n as int);
    }
    out
}

} // verus!
