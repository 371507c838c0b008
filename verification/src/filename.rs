//! Whether a file name sent by a client is safe to use inside the downloads
//! directory.

use vstd::prelude::*;
use vstd::utf8::{encode_utf8, encode_scalar};
use crate::text::{split_char, chars_of, contains_char, split_on, lemma_split_no_sep};

verus! {

/// Whether `c` has the Unicode `White_Space` property (PropList.txt): U+0009 to
/// U+000D, U+0020, U+0085, U+00A0, U+1680, U+2000 to U+200A, U+2028, U+2029,
/// U+202F, U+205F and U+3000.
pub open spec fn is_white_space(c: char) -> bool {
    ||| ('\u{9}' <= c && c <= '\u{d}')
    ||| c == ' '
    ||| c == '\u{85}'
    ||| c == '\u{a0}'
    ||| c == '\u{1680}'
    ||| ('\u{2000}' <= c && c <= '\u{200a}')
    ||| c == '\u{2028}'
    ||| c == '\u{2029}'
    ||| c == '\u{202f}'
    ||| c == '\u{205f}'
    ||| c == '\u{3000}'
}

/// Calls `char::is_whitespace`, which std documents as testing the Unicode
/// `White_Space` property; the contract lists the code points of that property.
#[verifier::external_body]
fn char_is_whitespace(c: char) -> (res: bool)
    ensures
        res == is_white_space(c),
{
    c.is_whitespace()
}

/// Nothing but white space: what `str::trim` turns into the empty string.
pub open spec fn is_blank(s: Seq<char>) -> bool {
    forall|i: int| 0 <= i < s.len() ==> is_white_space(#[trigger] s[i])
}

/// The characters that `sanitize_filename::sanitize` deletes: those reserved in
/// file names (`/ ? < > \ : * | "`) and the C0 and C1 control characters.
pub open spec fn unsafe_in_filename(c: char) -> bool {
    ||| c == '/' || c == '?' || c == '<' || c == '>' || c == '\\'
    ||| c == ':' || c == '*' || c == '|' || c == '"'
    ||| ('\u{0}' <= c && c <= '\u{1f}')
    ||| ('\u{80}' <= c && c <= '\u{9f}')
}

/// `s` without its unsafe characters.
pub open spec fn strip_unsafe(s: Seq<char>) -> Seq<char>
    decreases s.len(),
{
    if s.len() == 0 {
        s
    } else if unsafe_in_filename(s.last()) {
        strip_unsafe(s.drop_last())
    } else {
        strip_unsafe(s.drop_last()).push(s.last())
    }
}

/// One or more dots and nothing else (`.`, `..`, ...).
pub open spec fn all_dots(s: Seq<char>) -> bool {
    s.len() > 0 && forall|i: int| 0 <= i < s.len() ==> #[trigger] s[i] == '.'
}

/// The longest prefix of `s` whose UTF-8 form fits in `budget` bytes.
pub open spec fn utf8_prefix(s: Seq<char>, budget: int) -> Seq<char>
    decreases s.len(),
{
    if s.len() == 0 {
        s
    } else if encode_scalar(s[0] as u32).len() <= budget {
        seq![s[0]] + utf8_prefix(s.drop_first(), budget - encode_scalar(s[0] as u32).len())
    } else {
        Seq::<char>::empty()
    }
}

/// `c` is the letter written `lower` in lower case and `upper` in upper case.
pub open spec fn letter(c: char, lower: char, upper: char) -> bool {
    c == lower || c == upper
}

/// `s` starts with `con`, `prn`, `aux` or `nul`, in any case.
pub open spec fn starts_with_device(s: Seq<char>) -> bool {
    &&& s.len() >= 3
    &&& {
        ||| letter(s[0], 'c', 'C') && letter(s[1], 'o', 'O') && letter(s[2], 'n', 'N')
        ||| letter(s[0], 'p', 'P') && letter(s[1], 'r', 'R') && letter(s[2], 'n', 'N')
        ||| letter(s[0], 'a', 'A') && letter(s[1], 'u', 'U') && letter(s[2], 'x', 'X')
        ||| letter(s[0], 'n', 'N') && letter(s[1], 'u', 'U') && letter(s[2], 'l', 'L')
    }
}

/// `s` starts with `com` or `lpt`, in any case, followed by a digit.
pub open spec fn starts_with_numbered_device(s: Seq<char>) -> bool {
    &&& s.len() >= 4
    &&& {
        ||| letter(s[0], 'c', 'C') && letter(s[1], 'o', 'O') && letter(s[2], 'm', 'M')
        ||| letter(s[0], 'l', 'L') && letter(s[1], 'p', 'P') && letter(s[2], 't', 'T')
    }
    &&& '0' <= s[3] && s[3] <= '9'
}

/// `s` ends at `k`, or continues at `k` with an extension (a `.`).
pub open spec fn ends_or_extension(s: Seq<char>, k: int) -> bool {
    s.len() == k || s[k] == '.'
}

/// A name reserved for a device on Windows: `con`, `prn`, `aux`, `nul`, `com0`
/// to `com9` or `lpt0` to `lpt9`, in any case, alone or with an extension.
pub open spec fn windows_reserved(s: Seq<char>) -> bool {
    ||| starts_with_device(s) && ends_or_extension(s, 3)
    ||| starts_with_numbered_device(s) && ends_or_extension(s, 4)
}

/// `s` ends in a dot or a space.
pub open spec fn ends_in_dot_or_space(s: Seq<char>) -> bool {
    s.len() > 0 && (s.last() == '.' || s.last() == ' ')
}

/// `s` without its trailing dots and spaces.
pub open spec fn trim_trailing_dots_spaces(s: Seq<char>) -> Seq<char>
    decreases s.len(),
{
    if ends_in_dot_or_space(s) {
        trim_trailing_dots_spaces(s.drop_last())
    } else {
        s
    }
}

/// What `sanitize_filename::sanitize_with_options` makes of `name` with an
/// empty replacement: unsafe characters deleted and a name of dots only
/// emptied; with the Windows rules on (`windows`), a name reserved for a
/// Windows device emptied and trailing dots and spaces removed; with
/// truncation on (`truncate`), the rest cut to at most 255 bytes at a character
/// boundary.
pub open spec fn sanitized_with(name: Seq<char>, windows: bool, truncate: bool) -> Seq<char> {
    let kept = strip_unsafe(name);
    let kept = if all_dots(kept) { Seq::<char>::empty() } else { kept };
    let kept = if windows {
        trim_trailing_dots_spaces(if windows_reserved(kept) { Seq::<char>::empty() } else { kept })
    } else {
        kept
    };
    if truncate {
        utf8_prefix(kept, 255)
    } else {
        kept
    }
}

/// What `is_valid_filename` compares a name with: `sanitize_filename` with the
/// Windows rules and truncation on, so that names unusable on any of the
/// platforms are caught whatever platform this runs on.
pub open spec fn sanitized(name: Seq<char>) -> Seq<char> {
    sanitized_with(name, true, true)
}

/// Calls `sanitize_filename::sanitize_with_options` with the options
/// `windows`, `truncate` and `replacement`, the last of which must be empty.
/// Its source deletes every match of `[/\?<>\\:\*\|":]` and of
/// `[\x00-\x1f\x80-\x9f]` and replaces a whole name matching `^\.+$` by `""`;
/// with `windows`, it then replaces a whole name matching
/// `(?i)^(con|prn|aux|nul|com[0-9]|lpt[0-9])(\..*)?$` and then a match of
/// `[\. ]+$` by `""`; with `truncate`, it cuts the result to at most 255 bytes
/// at a character boundary. The contract claims exactly that.
#[verifier::external_body]
fn sanitize_name(name: &str, windows: bool, truncate: bool, replacement: &str) -> (res: String)
    requires
        replacement@.len() == 0,
    ensures
        res@ == sanitized_with(name@, windows, truncate),
{
    let options = sanitize_filename::Options { windows, truncate, replacement };
    sanitize_filename::sanitize_with_options(name, options)
}

/// What `std::path::Path::file_name` finds in a path without separators or
/// prefixes: a file name unless the path is empty, `.` or `..`.
pub open spec fn names_a_file(path: Seq<char>) -> bool {
    path.len() != 0 && path != seq!['.'] && path != seq!['.', '.']
}

/// Calls `std::path::Path::file_name` on `path` and tells whether it found a
/// final component. For a path free of `/`, `\` and `:` (so with one component
/// and no prefix on any platform), std documents that component as `.`
/// (`CurDir`) for `.`, `..` (`ParentDir`) for `..`, none for the empty path, and
/// otherwise a normal component, which is what `file_name` returns; the
/// contract claims that.
#[verifier::external_body]
fn has_file_name(path: &str) -> (res: bool)
    requires
        !path@.contains('/'),
        !path@.contains('\\'),
        !path@.contains(':'),
    ensures
        res == names_a_file(path@),
{
    std::path::Path::new(path).file_name().is_some()
}

/// What `is_valid_filename` decides, check by check.
pub open spec fn valid_filename(name: Seq<char>) -> bool {
    &&& !is_blank(name)
    &&& !name.contains('/')
    &&& !name.contains('\\')
    &&& !split_char(name, '/').contains(".."@)
    &&& sanitized(name) == name
    &&& names_a_file(name)
}

/// `s` holds nothing but white space.
fn blank(s: &str) -> (res: bool)
    ensures
        res == is_blank(s@),
        res <==> forall|i: int| 0 <= i < s@.len() ==> is_white_space(#[trigger] s@[i]),
{
    let cs = chars_of(s);
    let mut i: usize = 0;
    while i < cs.len()
        invariant
            cs@ == s@,
            i <= cs.len(),
            forall|j: int| 0 <= j < i ==> is_white_space(#[trigger] s@[j]),
        decreases cs.len() - i,
    {
        if !char_is_whitespace(cs[i]) {
            return false;
        }
        i = i + 1;
    }
    true
}

/// Whether `name` is a valid file name, safe to use on any file system: not
/// blank, free of path separators and of `..` components, unchanged by
/// `sanitize_filename` with its Windows rules on, and naming a file.
pub fn is_valid_filename(name: &str) -> (res: bool)
    ensures
        res == valid_filename(name@),
        res <==> {
            &&& exists|i: int| 0 <= i < name@.len() && !is_white_space(#[trigger] name@[i])
            &&& forall|i: int| 0 <= i < name@.len() ==> !unsafe_in_filename(#[trigger] name@[i])
            &&& !windows_reserved(name@)
            &&& !ends_in_dot_or_space(name@)
            &&& encode_utf8(name@).len() <= 255
        },
{
    let res = check_filename(name);
    proof {
        lemma_valid_filename_characterized(name@);
    }
    res
}

/// The checks of `is_valid_filename`, in order.
fn check_filename(name: &str) -> (res: bool)
    ensures
        res == valid_filename(name@),
{
    if blank(name) {
        return false;
    }
    if contains_char(name, '/') || contains_char(name, '\\') {
        return false;
    }
    let parts = split_on(name, '/');
    let dotdot = String::from_str("..");
    let mut i: usize = 0;
    while i < parts.len()
        invariant
            i <= parts.len(),
            parts@.len() == split_char(name@, '/').len(),
            forall|k: int| 0 <= k < parts@.len() ==> #[trigger] parts@[k]@ == split_char(name@, '/')[k],
            dotdot@ == ".."@,
            forall|k: int| 0 <= k < i ==> split_char(name@, '/')[k] != ".."@,
        decreases parts.len() - i,
    {
        if parts[i] == dotdot {
            assert(split_char(name@, '/')[i as int] == ".."@);
            return false;
        }
        i = i + 1;
    }
    let no_replacement = "";
    proof {
        reveal_strlit("");
    }
    let sanitized_name = sanitize_name(name, true, true, no_replacement);
    if sanitized_name != String::from_str(name) {
        return false;
    }
    proof {
        lemma_sanitized_fixed_point(name@);
        lemma_safe_has_no(name@, ':');
    }
    has_file_name(sanitized_name.as_str())
}

/// Stripping never lengthens a name, and leaves it unchanged exactly when it
/// holds no unsafe character.
proof fn lemma_strip_unsafe(s: Seq<char>)
    ensures
        strip_unsafe(s).len() <= s.len(),
        strip_unsafe(s) == s <==> (forall|i: int| 0 <= i < s.len() ==> !unsafe_in_filename(#[trigger] s[i])),
    decreases s.len(),
{
    if s.len() > 0 {
        let init = s.drop_last();
        lemma_strip_unsafe(init);
        if forall|i: int| 0 <= i < s.len() ==> !unsafe_in_filename(#[trigger] s[i]) {
            assert forall|i: int| 0 <= i < init.len() implies !unsafe_in_filename(#[trigger] init[i]) by {
                assert(init[i] == s[i]);
            }
            assert(!unsafe_in_filename(s[s.len() - 1]));
            assert(init.push(s.last()) == s);
        } else {
            let k = choose|k: int| 0 <= k < s.len() && unsafe_in_filename(#[trigger] s[k]);
            if k < s.len() - 1 {
                assert(init[k] == s[k]);
                if strip_unsafe(s) == s {
                    if unsafe_in_filename(s.last()) {
                        assert(strip_unsafe(s).len() < s.len());
                    } else {
                        assert(strip_unsafe(s).drop_last() == strip_unsafe(init));
                        assert(s.drop_last() == init);
                    }
                }
            } else {
                assert(unsafe_in_filename(s.last()));
            }
        }
    }
}

/// The UTF-8 prefix never lengthens a name, and keeps the whole of it exactly
/// when it fits in the budget.
proof fn lemma_utf8_prefix(s: Seq<char>, budget: int)
    requires
        budget >= 0,
    ensures
        utf8_prefix(s, budget).len() <= s.len(),
        utf8_prefix(s, budget) == s <==> encode_utf8(s).len() <= budget,
    decreases s.len(),
{
    if s.len() > 0 {
        let w = encode_scalar(s[0] as u32).len();
        assert(encode_utf8(s) == encode_scalar(s[0] as u32) + encode_utf8(s.drop_first()));
        if w <= budget {
            lemma_utf8_prefix(s.drop_first(), budget - w);
            let p = utf8_prefix(s.drop_first(), budget - w);
            assert(seq![s[0]] + s.drop_first() == s);
            if seq![s[0]] + p == s {
                assert(p == (seq![s[0]] + p).drop_first());
            }
        } else {
            assert(utf8_prefix(s, budget).len() == 0);
        }
    }
}

/// Trimming never lengthens a name, and leaves it unchanged exactly when it
/// does not end in a dot or a space.
proof fn lemma_trim_trailing(s: Seq<char>)
    ensures
        trim_trailing_dots_spaces(s).len() <= s.len(),
        ends_in_dot_or_space(s) ==> trim_trailing_dots_spaces(s).len() < s.len(),
        trim_trailing_dots_spaces(s) == s <==> !ends_in_dot_or_space(s),
    decreases s.len(),
{
    if ends_in_dot_or_space(s) {
        lemma_trim_trailing(s.drop_last());
    }
}

/// A name free of unsafe characters holds none of `c` when `c` is unsafe.
proof fn lemma_safe_has_no(name: Seq<char>, c: char)
    requires
        unsafe_in_filename(c),
        forall|i: int| 0 <= i < name.len() ==> !unsafe_in_filename(#[trigger] name[i]),
    ensures
        !name.contains(c),
{
    if name.contains(c) {
        let k = choose|k: int| 0 <= k < name.len() && name[k] == c;
        assert(!unsafe_in_filename(name[k]));
    }
}

/// `sanitize` leaves a name unchanged exactly when the name holds no unsafe
/// character, is not reserved for a Windows device, does not end in a dot or a
/// space, and fits in 255 bytes of UTF-8.
pub proof fn lemma_sanitized_fixed_point(name: Seq<char>)
    ensures
        sanitized(name) == name <==> {
            &&& forall|i: int| 0 <= i < name.len() ==> !unsafe_in_filename(#[trigger] name[i])
            &&& !windows_reserved(name)
            &&& !ends_in_dot_or_space(name)
            &&& encode_utf8(name).len() <= 255
        },
{
    lemma_strip_unsafe(name);
    let k1 = strip_unsafe(name);
    let k2 = if all_dots(k1) { Seq::<char>::empty() } else { k1 };
    let k3 = if windows_reserved(k2) { Seq::<char>::empty() } else { k2 };
    lemma_trim_trailing(k3);
    let k4 = trim_trailing_dots_spaces(k3);
    lemma_utf8_prefix(k4, 255);
    if k1 == name {
        if all_dots(name) {
            assert(name[name.len() - 1] == '.');
            assert(sanitized(name).len() == 0);
        } else if windows_reserved(name) {
            assert(sanitized(name).len() == 0);
        } else {
            assert(k2 == name);
            assert(k3 == name);
        }
    } else {
        assert(k1.len() < name.len()) by {
            if k1.len() == name.len() {
                lemma_strip_unsafe_same_len(name);
            }
        }
    }
}

/// Stripping that removes nothing leaves the name as it was.
proof fn lemma_strip_unsafe_same_len(s: Seq<char>)
    requires
        strip_unsafe(s).len() == s.len(),
    ensures
        strip_unsafe(s) == s,
    decreases s.len(),
{
    if s.len() > 0 {
        lemma_strip_unsafe(s.drop_last());
        if unsafe_in_filename(s.last()) {
            assert(false);
        } else {
            lemma_strip_unsafe_same_len(s.drop_last());
            assert(s.drop_last().push(s.last()) == s);
        }
    }
}

/// A name is blank exactly when every character of it has the Unicode
/// `White_Space` property: one character outside it (a letter, a digit, an
/// apostrophe, ...) makes the name not blank.
pub proof fn lemma_blank_exactly_white_space(s: Seq<char>)
    ensures
        is_blank(s) <==> forall|i: int| 0 <= i < s.len() ==> is_white_space(#[trigger] s[i]),
        (exists|i: int| 0 <= i < s.len() && !is_white_space(#[trigger] s[i])) ==> !is_blank(s),
        s.len() > 0 && !is_white_space(s[0]) ==> !is_blank(s),
{
}

/// A valid file name is exactly a name that is not blank, holds no unsafe
/// character (so neither `/` nor `\\` nor `:`), is not reserved for a Windows
/// device, does not end in a dot or a space (so is neither `.` nor `..`), and
/// fits in 255 bytes of UTF-8.
pub proof fn lemma_valid_filename_characterized(name: Seq<char>)
    ensures
        valid_filename(name) <==> {
            &&& exists|i: int| 0 <= i < name.len() && !is_white_space(#[trigger] name[i])
            &&& forall|i: int| 0 <= i < name.len() ==> !unsafe_in_filename(#[trigger] name[i])
            &&& !windows_reserved(name)
            &&& !ends_in_dot_or_space(name)
            &&& encode_utf8(name).len() <= 255
        },
{
    lemma_sanitized_fixed_point(name);
    reveal_strlit("..");
    assert(".."@ =~= seq!['.', '.']);
    if forall|i: int| 0 <= i < name.len() ==> !unsafe_in_filename(#[trigger] name[i]) {
        lemma_safe_has_no(name, '/');
        lemma_safe_has_no(name, '\\');
        lemma_split_no_sep(name, '/');
        if !ends_in_dot_or_space(name) && !is_blank(name) {
            assert(name.len() != 0);
            assert(name != seq!['.']) by {
                if name == seq!['.'] {
                    assert(name.last() == '.');
                }
            }
            assert(name != seq!['.', '.']) by {
                if name == seq!['.', '.'] {
                    assert(name.last() == '.');
                }
            }
            assert(!split_char(name, '/').contains(".."@)) by {
                if split_char(name, '/').contains(".."@) {
                    assert(split_char(name, '/')[0] == name);
                }
            }
        }
    }
}

} // verus!
