use vstd::prelude::*;
use vstd::string::StrSliceExecFns;

use crate::args::Args;

verus! {

/// One filesystem node seen by the traversal: its bare filename, its full
/// path (used for removal), and whether it is a regular file.
pub struct Entry {
    pub name: String,
    pub path: String,
    pub is_file: bool,
}

/// Index of the last `.` in `s`, or -1 when `s` has none.
pub open spec fn last_dot_index(s: Seq<char>) -> int
    decreases s.len(),
{
    if s.len() == 0 {
        -1
    } else if s.last() == '.' {
        s.len() - 1
    } else {
        last_dot_index(s.drop_last())
    }
}

/// The extension of a filename: the part after the last `.`, provided that
/// dot is not the leading character. A name without a dot, and a dotfile
/// such as `.env`, have the empty extension.
pub open spec fn extension_of(s: Seq<char>) -> Seq<char> {
    if last_dot_index(s) >= 1 {
        s.subrange(last_dot_index(s) + 1, s.len() as int)
    } else {
        Seq::empty()
    }
}

proof fn lemma_last_dot_at(s: Seq<char>, j: int)
    requires
        0 <= j < s.len(),
        s[j] == '.',
        forall|k: int| j < k < s.len() ==> s[k] != '.',
    ensures
        last_dot_index(s) == j,
    decreases s.len(),
{
    if j < s.len() - 1 {
        lemma_last_dot_at(s.drop_last(), j);
    }
}

proof fn lemma_no_dot(s: Seq<char>)
    requires
        forall|k: int| 0 <= k < s.len() ==> s[k] != '.',
    ensures
        last_dot_index(s) == -1,
    decreases s.len(),
{
    if s.len() > 0 {
        lemma_no_dot(s.drop_last());
    }
}

/// Extracts the file extension from the given filename.
pub fn get_extension_from_filename(name: &str) -> (ext: String)
    ensures
        ext@ == extension_of(name@),
{
    let n: usize = name.unicode_len();
    let mut i: usize = n;
    while i > 0
        invariant
            i <= n,
            n == name@.len(),
            forall|k: int| i <= k < n ==> name@[k] != '.',
        decreases i,
    {
        let j = i - 1;
        if name.get_char(j) == '.' {
            proof {
                lemma_last_dot_at(name@, j as int);
            }
            if j >= 1 {
                let ext = name.substring_char(i, n);
                return ext.to_owned();
            } else {
                return String::new();
            }
        }
        i = j;
    }
    proof {
        lemma_no_dot(name@);
    }
    String::new()
}

/// `needle` occurs in `hay` as a contiguous run of characters.
pub open spec fn has_substring(hay: Seq<char>, needle: Seq<char>) -> bool {
    exists|i: int|
        0 <= i && i + needle.len() <= hay.len() && #[trigger] hay.subrange(
            i,
            i + needle.len() as int,
        ) == needle
}

fn match_at(hay: &str, needle: &str, i: usize) -> (r: bool)
    requires
        i + needle@.len() <= hay@.len(),
    ensures
        r == (hay@.subrange(i as int, i + needle@.len()) == needle@),
{
    let hn: usize = hay.unicode_len();
    let nn: usize = needle.unicode_len();
    let mut j: usize = 0;
    while j < nn
        invariant
            i + nn <= hn,
            hn == hay@.len(),
            nn == needle@.len(),
            j <= nn,
            forall|k: int| 0 <= k < j ==> hay@[i + k] == needle@[k],
        decreases nn - j,
    {
        if hay.get_char(i + j) != needle.get_char(j) {
            proof {
                assert(hay@.subrange(i as int, i + needle@.len())[j as int] == hay@[i + j]);
            }
            return false;
        }
        j += 1;
    }
    proof {
        assert(hay@.subrange(i as int, i + needle@.len()) =~= needle@);
    }
    true
}

/// Whether `hay` contains `needle` as a substring of characters.
pub fn contains_substring(hay: &str, needle: &str) -> (r: bool)
    ensures
        r == has_substring(hay@, needle@),
{
    let hn: usize = hay.unicode_len();
    let nn: usize = needle.unicode_len();
    if nn > hn {
        return false;
    }
    if nn == 0 {
        proof {
            assert(hay@.subrange(0, 0 + needle@.len() as int) =~= needle@);
        }
        return true;
    }
    let mut i: usize = 0;
    while i <= hn - nn
        invariant
            1 <= nn <= hn,
            hn == hay@.len(),
            nn == needle@.len(),
            i <= hn - nn + 1,
            forall|j: int|
                0 <= j < i ==> #[trigger] hay@.subrange(j, j + needle@.len() as int) != needle@,
        decreases hn - nn + 1 - i,
    {
        if match_at(hay, needle, i) {
            return true;
        }
        i += 1;
    }
    proof {
        assert forall|w: int|
            !(0 <= w && w + needle@.len() <= hay@.len() && #[trigger] hay@.subrange(
                w,
                w + needle@.len() as int,
            ) == needle@) by {
            if 0 <= w && w + needle@.len() <= hay@.len() {
                assert(hay@.subrange(w, w + needle@.len() as int) != needle@);
            }
        }
    }
    false
}

/// The sequence of characters that `str::to_lowercase` yields for `s`.
pub uninterp spec fn lower_of(s: Seq<char>) -> Seq<char>;

/// Relies on str::to_lowercase: the lowercase equivalent of the input,
/// a function of the input characters alone.
#[verifier::external_body]
fn lowercase(s: &str) -> (r: String)
    ensures
        r@ == lower_of(s@),
{
    s.to_lowercase()
}

/// `list` holds a string whose characters are `s`.
pub open spec fn list_has_string(list: Seq<String>, s: Seq<char>) -> bool {
    exists|k: int| 0 <= k < list.len() && list[k]@ == s
}

/// Whether `ext` is one of the extensions in `list`.
pub fn extension_listed(list: &Vec<String>, ext: &String) -> (r: bool)
    ensures
        r == list_has_string(list@, ext@),
{
    let mut k: usize = 0;
    while k < list.len()
        invariant
            k <= list@.len(),
            forall|m: int| 0 <= m < k ==> list@[m]@ != ext@,
        decreases list@.len() - k,
    {
        if list[k] == *ext {
            return true;
        }
        k += 1;
    }
    false
}

/// The extension filter of `args` accepts a file named `name`: the filter is
/// empty, or the name's extension is listed (exact, case-sensitive match).
pub open spec fn extension_matches(args: Args, name: Seq<char>) -> bool {
    args.extension@.len() == 0 || list_has_string(args.extension@, extension_of(name))
}

/// The name filter of `args` accepts a file named `name`: no pattern is set,
/// or the name contains the pattern, both lowercased first when
/// `ignore_case` is set.
pub open spec fn name_matches(args: Args, name: Seq<char>) -> bool {
    match args.name_contains {
        Some(pat) => if args.ignore_case {
            has_substring(lower_of(name), lower_of(pat@))
        } else {
            has_substring(name, pat@)
        },
        None => true,
    }
}

/// `entry` passes the filter of `args`: it is a regular file whose name
/// satisfies both the extension filter and the name filter.
pub open spec fn entry_matches(args: Args, entry: Entry) -> bool {
    entry.is_file && extension_matches(args, entry.name@) && name_matches(args, entry.name@)
}

/// Evaluates whether a directory entry matches the provided filter criteria.
/// Checks file type, extension, and name pattern (supporting case-insensitivity).
pub fn filter_args(args: &Args, entry: &Entry) -> (r: bool)
    ensures
        r == entry_matches(*args, *entry),
{
    if !entry.is_file {
        return false;
    }
    let ext = get_extension_from_filename(entry.name.as_str());
    let extensions_matches = args.extension.len() == 0 || extension_listed(
        &args.extension,
        &ext,
    );
    let name_matches_here = match &args.name_contains {
        Some(pat) => {
            if args.ignore_case {
                let lowered_name = lowercase(entry.name.as_str());
                let lowered_pat = lowercase(pat.as_str());
                contains_substring(lowered_name.as_str(), lowered_pat.as_str())
            } else {
                contains_substring(entry.name.as_str(), pat.as_str())
            }
        },
        None => true,
    };
    name_matches_here && extensions_matches
}

} // verus!
