//! Frame files: the index that a file name carries, and the order of frames.
//!
//! The decoder writes its frames as `<prefix>_<index>.<ext>`. A path is read
//! as components separated by `/`; its file name is the last component that
//! is neither empty nor `.`, and `..` names no file.

use crate::text::{find_first, find_last, same_text};
use vstd::prelude::*;

verus! {

/// The file name of `path`, if it has one.
pub open spec fn file_name(path: Seq<char>) -> Option<Seq<char>>
    decreases path.len(),
{
    if path.len() == 0 {
        None
    } else {
        let start = match path.index_of_last('/') {
            Some(i) => i + 1,
            None => 0,
        };
        if start < 0 || start > path.len() {
            // Never so: a `/` that is found lies within the path.
            None
        } else {
            let last = path.subrange(start, path.len() as int);
            if last.len() == 0 || last == seq!['.'] {
                if start == 0 {
                    None
                } else {
                    file_name(path.subrange(0, start - 1))
                }
            } else if last == seq!['.', '.'] {
                None
            } else {
                Some(last)
            }
        }
    }
}

/// The position of the dot that parts a file name into stem and extension:
/// its last dot, unless that is its first character.
pub open spec fn extension_dot(name: Seq<char>) -> Option<int> {
    match name.index_of_last('.') {
        Some(i) => if i > 0 {
            Some(i)
        } else {
            None
        },
        None => None,
    }
}

/// A file name without its extension.
pub open spec fn stem_of(name: Seq<char>) -> Seq<char> {
    match extension_dot(name) {
        Some(i) => name.subrange(0, i),
        None => name,
    }
}

/// The extension of a file name, without the dot.
pub open spec fn extension_of(name: Seq<char>) -> Option<Seq<char>> {
    match extension_dot(name) {
        Some(i) => Some(name.subrange(i + 1, name.len() as int)),
        None => None,
    }
}

/// The second of the parts into which `_` divides `stem`, if there are two.
pub open spec fn second_component(stem: Seq<char>) -> Option<Seq<char>> {
    match stem.index_of_first('_') {
        Some(i) => {
            let rest = stem.subrange(i + 1, stem.len() as int);
            match rest.index_of_first('_') {
                Some(j) => Some(rest.subrange(0, j)),
                None => Some(rest),
            }
        },
        None => None,
    }
}

/// `c` is one of `0` to `9`.
pub open spec fn is_digit(c: char) -> bool {
    '0' <= c <= '9'
}

/// The value of the digit `c`, and 0 for any other character.
pub open spec fn digit_value(c: char) -> nat {
    if is_digit(c) {
        (c as u32 - '0' as u32) as nat
    } else {
        0
    }
}

/// The number that `digits` writes in base ten.
pub open spec fn decimal_value(digits: Seq<char>) -> nat
    decreases digits.len(),
{
    if digits.len() == 0 {
        0
    } else {
        decimal_value(digits.drop_last()) * 10 + digit_value(digits.last())
    }
}

/// Every character of `s` is a digit.
pub open spec fn all_digits(s: Seq<char>) -> bool {
    forall|i: int| 0 <= i < s.len() ==> is_digit(#[trigger] s[i])
}

/// `s` without one leading `+`.
pub open spec fn unsigned_digits(s: Seq<char>) -> Seq<char> {
    if s.len() > 0 && s[0] == '+' {
        s.drop_first()
    } else {
        s
    }
}

/// The 32-bit number that `s` writes: one optional `+`, then at least one
/// digit, the value within range.
pub open spec fn parse_u32(s: Seq<char>) -> Option<u32> {
    let digits = unsigned_digits(s);
    if digits.len() > 0 && all_digits(digits) && decimal_value(digits) <= u32::MAX {
        Some(decimal_value(digits) as u32)
    } else {
        None
    }
}

/// The number in the file name of `path`: the second `_`-separated part of
/// the stem, read as a 32-bit number.
pub open spec fn frame_number(path: Seq<char>) -> Option<u32> {
    match file_name(path) {
        Some(name) => match second_component(stem_of(name)) {
            Some(part) => parse_u32(part),
            None => None,
        },
        None => None,
    }
}

/// The index by which a frame is ordered: its number, or 0 where the name
/// carries none.
pub open spec fn frame_index(path: Seq<char>) -> u32 {
    match frame_number(path) {
        Some(n) => n,
        None => 0,
    }
}

/// `path` names a file with the extension `ext`.
pub open spec fn has_extension(path: Seq<char>, ext: Seq<char>) -> bool {
    match file_name(path) {
        Some(name) => extension_of(name) == Some(ext),
        None => false,
    }
}

/// A longer digit string is worth at least as much as its beginning.
pub proof fn lemma_decimal_value_grows(s: Seq<char>, n: int)
    requires
        0 <= n <= s.len(),
    ensures
        decimal_value(s.subrange(0, n)) <= decimal_value(s),
    decreases s.len() - n,
{
    if n == s.len() {
        assert(s.subrange(0, n) =~= s);
    } else {
        lemma_decimal_value_grows(s.drop_last(), n);
        assert(s.drop_last().subrange(0, n) =~= s.subrange(0, n));
    }
}

/// A path whose file name has the form `<prefix>_<digits>.<ext>` has the
/// number that the digits write, as long as that number fits in 32 bits. The
/// prefix holds no `_`, the extension no `.`, and the file name no `/`; the
/// directory before it is empty or ends with `/`.
pub proof fn numbered_name_gives_its_number(
    directory: Seq<char>,
    prefix: Seq<char>,
    digits: Seq<char>,
    ext: Seq<char>,
)
    requires
        directory.len() == 0 || directory.last() == '/',
        !prefix.contains('_'),
        !prefix.contains('/'),
        digits.len() > 0,
        all_digits(digits),
        decimal_value(digits) <= u32::MAX,
        !ext.contains('.'),
        !ext.contains('/'),
    ensures
        frame_number(directory + prefix + seq!['_'] + digits + seq!['.'] + ext) == Some(
            decimal_value(digits) as u32,
        ),
        frame_index(directory + prefix + seq!['_'] + digits + seq!['.'] + ext) == decimal_value(
            digits,
        ),
{
    let stem = prefix + seq!['_'] + digits;
    let name = stem + seq!['.'] + ext;
    let path = directory + name;
    let d = directory.len() as int;
    let p = prefix.len() as int;
    let n = digits.len() as int;
    assert(path =~= directory + prefix + seq!['_'] + digits + seq!['.'] + ext);
    assert forall|i: int| 0 <= i < name.len() implies name[i] != '/' by {
        if i < p {
            assert(prefix.contains(prefix[i]));
        } else if i == p {
        } else if i < p + 1 + n {
            assert(is_digit(digits[i - p - 1]));
        } else if i == p + 1 + n {
        } else {
            assert(ext.contains(ext[i - p - n - 2]));
        }
    }
    path.index_of_last_ensures('/');
    let start = match path.index_of_last('/') {
        Some(i) => i + 1,
        None => 0,
    };
    assert(start == d) by {
        match path.index_of_last('/') {
            Some(i) => {
                if i >= d {
                    assert(path[i] == name[i - d]);
                }
                if i < d - 1 {
                    assert(path[d - 1] == directory.last());
                }
            },
            None => {
                if d > 0 {
                    assert(path[d - 1] == '/');
                    assert(path.contains('/'));
                }
            },
        }
    }
    assert(path.subrange(d, path.len() as int) =~= name);
    assert(name.len() >= 3);
    assert(seq!['.'].len() == 1);
    assert(seq!['.', '.'].len() == 2);
    assert(file_name(path) == Some(name));
    // The dot that parts stem and extension.
    name.index_of_last_ensures('.');
    assert(name[p + 1 + n] == '.');
    assert(name.contains('.'));
    let dot = name.index_of_last('.')->0;
    assert(dot == p + 1 + n) by {
        if dot > p + 1 + n {
            assert(name[dot] == ext[dot - p - n - 2]);
            assert(ext.contains(ext[dot - p - n - 2]));
        }
    }
    assert(extension_dot(name) == Some(dot));
    assert(name.subrange(0, dot) =~= stem);
    assert(stem_of(name) == stem);
    // The parts of the stem.
    stem.index_of_first_ensures('_');
    assert(stem[p] == '_');
    assert(stem.contains('_'));
    let first = stem.index_of_first('_')->0;
    assert(first == p) by {
        if first < p {
            assert(stem[first] == prefix[first]);
            assert(prefix.contains(prefix[first]));
        }
    }
    let rest = stem.subrange(first + 1, stem.len() as int);
    assert(rest =~= digits);
    digits.index_of_first_ensures('_');
    assert(digits.index_of_first('_') is None) by {
        if digits.index_of_first('_') is Some {
            let j = digits.index_of_first('_')->0;
            assert(is_digit(digits[j]));
        }
    }
    assert(second_component(stem) == Some(digits));
    assert(is_digit(digits[0]));
    assert(unsigned_digits(digits) == digits);
}

/// A path without a file name, a file name whose stem holds no `_`, and a
/// second part that is no number in 32 bits all give the index 0.
pub proof fn unnumbered_name_gives_zero(path: Seq<char>)
    ensures
        file_name(path) is None ==> frame_index(path) == 0,
        file_name(path) matches Some(name) && !stem_of(name).contains('_') ==> frame_index(path)
            == 0,
        file_name(path) matches Some(name) && second_component(stem_of(name)) matches Some(part)
            && parse_u32(part) is None ==> frame_index(path) == 0,
{
    match file_name(path) {
        Some(name) => {
            stem_of(name).index_of_first_ensures('_');
        },
        None => {},
    }
}

/// The file name of `path`.
pub fn file_name_of(path: &str) -> (r: Option<&str>)
    ensures
        match r {
            Some(name) => file_name(path@) == Some(name@),
            None => file_name(path@) is None,
        },
{
    let mut cur: &str = path;
    loop
        invariant
            file_name(path@) == file_name(cur@),
        decreases cur@.len(),
    {
        let n: usize = cur.unicode_len();
        if n == 0 {
            return None;
        }
        proof {
            cur@.index_of_last_ensures('/');
        }
        let start: usize = match find_last(cur, '/') {
            Some(i) => i + 1,
            None => 0,
        };
        let last: &str = cur.substring_char(start, n);
        let m: usize = n - start;
        if m == 0 || (m == 1 && last.get_char(0) == '.') {
            assert(last@.len() == 0 || last@ =~= seq!['.']);
            if start == 0 {
                return None;
            }
            cur = cur.substring_char(0, start - 1);
        } else if m == 2 && last.get_char(0) == '.' && last.get_char(1) == '.' {
            assert(last@ =~= seq!['.', '.']);
            assert(last@ != seq!['.']);
            return None;
        } else {
            assert(last@ != seq!['.']) by {
                if last@ == seq!['.'] {
                    assert(last@.len() == 1);
                    assert(last@[0] == '.');
                }
            }
            assert(last@ != seq!['.', '.']) by {
                if last@ == seq!['.', '.'] {
                    assert(last@.len() == 2);
                    assert(last@[0] == '.');
                    assert(last@[1] == '.');
                }
            }
            return Some(last);
        }
    }
}

/// The position of the dot between stem and extension of `name`.
fn extension_dot_of(name: &str) -> (r: Option<usize>)
    ensures
        match r {
            Some(i) => extension_dot(name@) == Some(i as int),
            None => extension_dot(name@) is None,
        },
        r is Some ==> 0 < r->0 < name@.len(),
{
    proof {
        name@.index_of_last_ensures('.');
    }
    match find_last(name, '.') {
        Some(i) => if i > 0 {
            Some(i)
        } else {
            None
        },
        None => None,
    }
}

/// `name` without its extension.
pub fn stem(name: &str) -> (r: &str)
    ensures
        r@ == stem_of(name@),
{
    match extension_dot_of(name) {
        Some(i) => name.substring_char(0, i),
        None => name,
    }
}

/// Whether `path` names a file with the extension `ext`.
pub fn path_has_extension(path: &str, ext: &str) -> (r: bool)
    ensures
        r == has_extension(path@, ext@),
{
    match file_name_of(path) {
        Some(name) => match extension_dot_of(name) {
            Some(i) => {
                let n: usize = name.unicode_len();
                same_text(name.substring_char(i + 1, n), ext)
            },
            None => false,
        },
        None => false,
    }
}

/// The second `_`-separated part of `stem`.
pub fn second_part(stem: &str) -> (r: Option<&str>)
    ensures
        match r {
            Some(part) => second_component(stem@) == Some(part@),
            None => second_component(stem@) is None,
        },
{
    proof {
        stem@.index_of_first_ensures('_');
    }
    match find_first(stem, '_') {
        Some(i) => {
            let n: usize = stem.unicode_len();
            let rest: &str = stem.substring_char(i + 1, n);
            proof {
                rest@.index_of_first_ensures('_');
            }
            match find_first(rest, '_') {
                Some(j) => Some(rest.substring_char(0, j)),
                None => Some(rest),
            }
        },
        None => None,
    }
}

/// Reads `s` as a 32-bit number in base ten.
pub fn parse_number(s: &str) -> (r: Option<u32>)
    ensures
        r == parse_u32(s@),
{
    let len: usize = s.unicode_len();
    let digits: &str = if len > 0 && s.get_char(0) == '+' {
        s.substring_char(1, len)
    } else {
        s
    };
    assert(digits@ =~= unsigned_digits(s@));
    let n: usize = digits.unicode_len();
    if n == 0 {
        return None;
    }
    let mut value: u32 = 0;
    let mut i: usize = 0;
    while i < n
        invariant
            n == digits@.len(),
            n > 0,
            digits@ == unsigned_digits(s@),
            i <= n,
            all_digits(digits@.subrange(0, i as int)),
            value == decimal_value(digits@.subrange(0, i as int)),
        decreases n - i,
    {
        let c: char = digits.get_char(i);
        if c < '0' || c > '9' {
            assert(!is_digit(digits@[i as int]));
            return None;
        }
        let d: u32 = c as u32 - '0' as u32;
        let ghost next = digits@.subrange(0, i as int + 1);
        proof {
            assert(next.drop_last() =~= digits@.subrange(0, i as int));
            assert(next.last() == c);
            assert(decimal_value(next) == value * 10 + d);
            assert forall|k: int| 0 <= k < next.len() implies is_digit(#[trigger] next[k]) by {
                if k < i {
                    assert(digits@.subrange(0, i as int)[k] == next[k]);
                }
            }
        }
        if value > (u32::MAX - d) / 10 {
            proof {
                lemma_decimal_value_grows(digits@, i as int + 1);
                assert(decimal_value(next) > u32::MAX);
            }
            return None;
        }
        value = value * 10 + d;
        i = i + 1;
    }
    assert(digits@.subrange(0, n as int) =~= digits@);
    Some(value)
}

/// The number that the file name of `path` carries.
pub fn extract_frame_number(path: &str) -> (r: Option<u32>)
    ensures
        r == frame_number(path@),
{
    match file_name_of(path) {
        Some(name) => match second_part(stem(name)) {
            Some(part) => parse_number(part),
            None => None,
        },
        None => None,
    }
}

/// The index by which the frame at `path` is ordered.
pub fn frame_index_of(path: &str) -> (r: u32)
    ensures
        r == frame_index(path@),
{
    match extract_frame_number(path) {
        Some(n) => n,
        None => 0,
    }
}

} // verus!
