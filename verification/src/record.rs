//! The record page's own computations: cleaning up the user-entered sshfs
//! mount options before saving, deciding when a changed identifier must be
//! checked for uniqueness, and deriving the identifier of a cloned
//! definition.

use vstd::prelude::*;
use vstd::string::StrSliceExecFns;
use vstd::string::StringExecFns;

verus! {

/// A white-space character (the Unicode `White_Space` set).
pub open spec fn is_space_char(c: char) -> bool {
    ||| c == ' '
    ||| c == '\t'
    ||| c == '\n'
    ||| c == '\u{000B}'
    ||| c == '\u{000C}'
    ||| c == '\r'
    ||| c == '\u{0085}'
    ||| c == '\u{00A0}'
    ||| c == '\u{1680}'
    ||| (0x2000 <= c as u32 && c as u32 <= 0x200A)
    ||| c == '\u{2028}'
    ||| c == '\u{2029}'
    ||| c == '\u{202F}'
    ||| c == '\u{205F}'
    ||| c == '\u{3000}'
}

/// A character a mount option is trimmed of: white space or a comma.
pub open spec fn is_option_padding(c: char) -> bool {
    is_space_char(c) || c == ','
}

/// Whether `c` is white space or a comma.
pub fn is_option_padding_char(c: char) -> (r: bool)
    ensures
        r == is_option_padding(c),
{
    c == ' ' || c == '\t' || c == '\n' || c == '\u{000B}' || c == '\u{000C}' || c == '\r' || c
        == '\u{0085}' || c == '\u{00A0}' || c == '\u{1680}' || (0x2000 <= c as u32 && c as u32
        <= 0x200A) || c == '\u{2028}' || c == '\u{2029}' || c == '\u{202F}' || c == '\u{205F}' || c
        == '\u{3000}' || c == ','
}

/// `s` without its leading padding characters.
pub open spec fn trim_leading(s: Seq<char>) -> Seq<char>
    decreases s.len(),
{
    if s.len() > 0 && is_option_padding(s.first()) {
        trim_leading(s.drop_first())
    } else {
        s
    }
}

/// `s` without its trailing padding characters.
pub open spec fn trim_trailing(s: Seq<char>) -> Seq<char>
    decreases s.len(),
{
    if s.len() > 0 && is_option_padding(s.last()) {
        trim_trailing(s.drop_last())
    } else {
        s
    }
}

/// One mount option as it is saved: without leading and trailing white
/// space and commas.
pub open spec fn trimmed_option(s: Seq<char>) -> Seq<char> {
    trim_trailing(trim_leading(s))
}

/// Dropping a fully padded prefix is what `trim_leading` does.
proof fn lemma_trim_leading_skip(s: Seq<char>, k: int)
    requires
        0 <= k <= s.len(),
        forall|j: int| 0 <= j < k ==> is_option_padding(s[j]),
        k < s.len() ==> !is_option_padding(s[k]),
    ensures
        trim_leading(s) == s.skip(k),
    decreases s.len(),
{
    if k == 0 {
        assert(s.skip(0) =~= s);
    } else {
        assert(is_option_padding(s.first()));
        assert forall|j: int| 0 <= j < k - 1 implies is_option_padding(s.drop_first()[j]) by {
            assert(s.drop_first()[j] == s[j + 1]);
        }
        if k - 1 < s.drop_first().len() {
            assert(s.drop_first()[k - 1] == s[k]);
        }
        lemma_trim_leading_skip(s.drop_first(), k - 1);
        assert(s.drop_first().skip(k - 1) =~= s.skip(k));
    }
}

/// Keeping everything before a fully padded suffix is what `trim_trailing`
/// does.
proof fn lemma_trim_trailing_take(s: Seq<char>, m: int)
    requires
        0 <= m <= s.len(),
        forall|j: int| m <= j < s.len() ==> is_option_padding(s[j]),
        m > 0 ==> !is_option_padding(s[m - 1]),
    ensures
        trim_trailing(s) == s.take(m),
    decreases s.len(),
{
    if m == s.len() {
        assert(s.take(m) =~= s);
    } else {
        assert(is_option_padding(s.last()));
        assert forall|j: int| m <= j < s.drop_last().len() implies is_option_padding(
            s.drop_last()[j],
        ) by {
            assert(s.drop_last()[j] == s[j]);
        }
        lemma_trim_trailing_take(s.drop_last(), m);
        assert(s.drop_last().take(m) =~= s.take(m));
    }
}

/// Removes leading and trailing white space and commas from one
/// user-entered mount option.
pub fn trim_option_text(s: &str) -> (r: String)
    ensures
        r@ == trimmed_option(s@),
{
    let n = s.unicode_len();
    let mut start: usize = 0;
    while start < n && is_option_padding_char(s.get_char(start))
        invariant
            n == s@.len(),
            0 <= start <= n,
            forall|j: int| 0 <= j < start ==> is_option_padding(s@[j]),
        decreases n - start,
    {
        start = start + 1;
    }
    let mut end: usize = n;
    while end > start && is_option_padding_char(s.get_char(end - 1))
        invariant
            n == s@.len(),
            0 <= start <= end <= n,
            forall|j: int| end <= j < n ==> is_option_padding(s@[j]),
        decreases end,
    {
        end = end - 1;
    }
    let r = s.substring_char(start, end);
    proof {
        lemma_trim_leading_skip(s@, start as int);
        let tail = s@.skip(start as int);
        assert forall|j: int| end - start <= j < tail.len() implies is_option_padding(
            tail[j],
        ) by {
            assert(tail[j] == s@[j + start]);
        }
        if end > start {
            assert(tail[end - start - 1] == s@[end - 1]);
        }
        lemma_trim_trailing_take(tail, end - start as int);
        assert(s@.subrange(start as int, end as int) =~= tail.take(end - start as int));
    }
    r.to_owned()
}

/// The mount options as they are saved: each entry trimmed of surrounding
/// white space and commas, entries left empty by that dropped, order kept.
pub open spec fn cleaned_options(opts: Seq<Seq<char>>) -> Seq<Seq<char>>
    decreases opts.len(),
{
    if opts.len() == 0 {
        Seq::empty()
    } else {
        let rest = cleaned_options(opts.drop_first());
        if trimmed_option(opts.first()).len() > 0 {
            seq![trimmed_option(opts.first())] + rest
        } else {
            rest
        }
    }
}

/// Cleans the user-entered mount options before saving: trims each entry of
/// surrounding white space and commas and drops the entries that end up
/// empty, keeping the order.
pub fn post_process_mount_options(options: Vec<String>) -> (r: Vec<String>)
    ensures
        r@.map_values(|o: String| o@) == cleaned_options(options@.map_values(|o: String| o@)),
{
    let ghost orig = options@.map_values(|o: String| o@);
    let mut remaining = options;
    let mut out: Vec<String> = Vec::new();
    proof {
        assert(remaining@.map_values(|o: String| o@) =~= orig);
        assert(out@.map_values(|o: String| o@) =~= Seq::<Seq<char>>::empty());
    }
    while remaining.len() > 0
        invariant
            cleaned_options(orig) == out@.map_values(|o: String| o@) + cleaned_options(
                remaining@.map_values(|o: String| o@),
            ),
        decreases remaining.len(),
    {
        let ghost old_rem_views = remaining@.map_values(|o: String| o@);
        let ghost old_out_views = out@.map_values(|o: String| o@);
        let item = remaining.remove(0);
        let ghost item_g = item;
        let trimmed = trim_option_text(item.as_str());
        let ghost trimmed_g = trimmed;
        let keep = !trimmed.as_str().is_empty();
        if keep {
            out.push(trimmed);
        }
        proof {
            assert(old_rem_views.drop_first() =~= remaining@.map_values(|o: String| o@));
            assert(old_rem_views.first() == item_g@);
            if keep {
                assert(out@.map_values(|o: String| o@) =~= old_out_views.push(trimmed_g@));
                assert(old_out_views + (seq![trimmed_option(item_g@)] + cleaned_options(
                    remaining@.map_values(|o: String| o@),
                )) =~= out@.map_values(|o: String| o@) + cleaned_options(
                    remaining@.map_values(|o: String| o@),
                ));
            }
        }
    }
    proof {
        assert(remaining@.map_values(|o: String| o@) =~= Seq::<Seq<char>>::empty());
        assert(out@.map_values(|o: String| o@) + cleaned_options(
            remaining@.map_values(|o: String| o@),
        ) =~= out@.map_values(|o: String| o@));
    }
    out
}

/// Whether saving must first check the identifier for uniqueness: always
/// for a brand-new definition, and for an existing one exactly when its
/// identifier was changed.
pub fn needs_id_uniqueness_check(is_existing: bool, id: &String, original_id: &String) -> (r: bool)
    ensures
        r == if is_existing {
            id@ != original_id@
        } else {
            true
        },
{
    if is_existing {
        !id.eq(original_id)
    } else {
        true
    }
}

/// The identifier a cloned definition starts out with: the original
/// identifier with `"-clone"` appended.
pub fn clone_record_id(id: &str) -> (r: String)
    ensures
        r@ == id@ + "-clone"@,
{
    let mut r = String::from_str(id);
    r.append("-clone");
    r
}

} // verus!
