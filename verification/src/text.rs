//! Operations on names: comparison, prefixes and suffixes, decimal numbers,
//! and the inflections that accessor names are derived with.

use crate::syntax::strs_view;
use vstd::prelude::*;
use vstd::string::StrSliceExecFns;
use vstd::string::StringExecFns;

verus! {

/// Whether `s` ends with `suffix`.
pub open spec fn has_suffix(s: Seq<char>, suffix: Seq<char>) -> bool {
    suffix.len() <= s.len() && s.subrange(s.len() - suffix.len(), s.len() as int) == suffix
}

/// The position of the first `c` in `s`, if there is one.
pub open spec fn first_index_of(s: Seq<char>, c: char) -> Option<int>
    decreases s.len(),
{
    if s.len() == 0 {
        None
    } else if s[0] == c {
        Some(0)
    } else {
        match first_index_of(s.subrange(1, s.len() as int), c) {
            Some(i) => Some(i + 1),
            None => None,
        }
    }
}

/// The position of the last `c` in `s`, if there is one.
pub open spec fn last_index_of(s: Seq<char>, c: char) -> Option<int>
    decreases s.len(),
{
    if s.len() == 0 {
        None
    } else if s[s.len() - 1] == c {
        Some(s.len() - 1)
    } else {
        last_index_of(s.subrange(0, s.len() - 1), c)
    }
}

/// The decimal digit `d`, for `d` below ten.
pub open spec fn digit(d: nat) -> Seq<char> {
    if d == 0 {
        "0"@
    } else if d == 1 {
        "1"@
    } else if d == 2 {
        "2"@
    } else if d == 3 {
        "3"@
    } else if d == 4 {
        "4"@
    } else if d == 5 {
        "5"@
    } else if d == 6 {
        "6"@
    } else if d == 7 {
        "7"@
    } else if d == 8 {
        "8"@
    } else {
        "9"@
    }
}

/// The decimal numeral of `n`, without leading zeros.
pub open spec fn decimal(n: nat) -> Seq<char>
    decreases n,
{
    if n < 10 {
        digit(n)
    } else {
        decimal(n / 10) + digit(n % 10)
    }
}

/// What `first_index_of` finds is the least position that holds `c`.
pub proof fn lemma_first_index_of(s: Seq<char>, c: char)
    ensures
        match first_index_of(s, c) {
            Some(i) => 0 <= i < s.len() && s[i] == c && forall|j: int| 0 <= j < i ==> s[j] != c,
            None => forall|j: int| 0 <= j < s.len() ==> s[j] != c,
        },
    decreases s.len(),
{
    if s.len() > 0 && s[0] != c {
        let rest = s.subrange(1, s.len() as int);
        lemma_first_index_of(rest, c);
        match first_index_of(rest, c) {
            Some(i) => {
                assert forall|j: int| 0 <= j < i + 1 implies s[j] != c by {
                    if j > 0 {
                        assert(rest[j - 1] == s[j]);
                    }
                }
            },
            None => {
                assert forall|j: int| 0 <= j < s.len() implies s[j] != c by {
                    if j > 0 {
                        assert(rest[j - 1] == s[j]);
                    }
                }
            },
        }
    }
}

/// A position that holds `c`, with no `c` before it, is what
/// `first_index_of` finds.
pub proof fn lemma_first_index_is(s: Seq<char>, c: char, i: int)
    requires
        0 <= i < s.len(),
        s[i] == c,
        forall|j: int| 0 <= j < i ==> s[j] != c,
    ensures
        first_index_of(s, c) == Some(i),
{
    lemma_first_index_of(s, c);
}

/// Where no position holds `c`, neither search finds one.
pub proof fn lemma_index_of_absent(s: Seq<char>, c: char)
    requires
        forall|j: int| 0 <= j < s.len() ==> s[j] != c,
    ensures
        first_index_of(s, c) is None,
        last_index_of(s, c) is None,
{
    lemma_first_index_of(s, c);
    lemma_last_index_of(s, c);
}

/// What `last_index_of` finds is the greatest position that holds `c`.
pub proof fn lemma_last_index_of(s: Seq<char>, c: char)
    ensures
        match last_index_of(s, c) {
            Some(i) => 0 <= i < s.len() && s[i] == c && forall|j: int|
                i < j < s.len() ==> s[j] != c,
            None => forall|j: int| 0 <= j < s.len() ==> s[j] != c,
        },
    decreases s.len(),
{
    if s.len() > 0 && s[s.len() - 1] != c {
        let rest = s.subrange(0, s.len() - 1);
        lemma_last_index_of(rest, c);
        match last_index_of(rest, c) {
            Some(i) => {
                assert(rest[i] == s[i]);
                assert forall|j: int| i < j < s.len() implies s[j] != c by {
                    if j < s.len() - 1 {
                        assert(rest[j] == s[j]);
                    }
                }
            },
            None => {
                assert forall|j: int| 0 <= j < s.len() implies s[j] != c by {
                    if j < s.len() - 1 {
                        assert(rest[j] == s[j]);
                    }
                }
            },
        }
    }
}

/// A position that holds `c`, with no `c` after it, is what `last_index_of`
/// finds.
pub proof fn lemma_last_index_is(s: Seq<char>, c: char, i: int)
    requires
        0 <= i < s.len(),
        s[i] == c,
        forall|j: int| i < j < s.len() ==> s[j] != c,
    ensures
        last_index_of(s, c) == Some(i),
{
    lemma_last_index_of(s, c);
}

/// Whether two strings hold the same characters.
pub fn str_eq(a: &str, b: &str) -> (r: bool)
    ensures
        r == (a@ == b@),
{
    let n = a.unicode_len();
    if n != b.unicode_len() {
        return false;
    }
    let mut i: usize = 0;
    while i < n
        invariant
            i <= n,
            n == a@.len(),
            n == b@.len(),
            forall|j: int| 0 <= j < i ==> a@[j] == b@[j],
        decreases n - i,
    {
        if a.get_char(i) != b.get_char(i) {
            return false;
        }
        i += 1;
    }
    assert(a@ =~= b@);
    true
}

/// Whether `s` ends with `suffix`.
pub fn ends_with(s: &str, suffix: &str) -> (r: bool)
    ensures
        r == has_suffix(s@, suffix@),
{
    let n = s.unicode_len();
    let m = suffix.unicode_len();
    if m > n {
        return false;
    }
    let mut i: usize = 0;
    while i < m
        invariant
            i <= m,
            m <= n,
            n == s@.len(),
            m == suffix@.len(),
            forall|j: int| 0 <= j < i ==> s@[n - m + j] == suffix@[j],
        decreases m - i,
    {
        if s.get_char(n - m + i) != suffix.get_char(i) {
            assert(s@.subrange(n - m, n as int)[i as int] != suffix@[i as int]);
            return false;
        }
        i += 1;
    }
    assert(s@.subrange(n - m, n as int) =~= suffix@);
    true
}

/// `s` without `suffix` at its end, if it ends with it.
pub fn strip_suffix(s: &str, suffix: &str) -> (r: Option<String>)
    ensures
        r is Some == has_suffix(s@, suffix@),
        r matches Some(rest) ==> rest@ == s@.subrange(0, s@.len() - suffix@.len()),
{
    if ends_with(s, suffix) {
        let n = s.unicode_len();
        let m = suffix.unicode_len();
        Some(String::from_str(s.substring_char(0, n - m)))
    } else {
        None
    }
}

/// `s` without `c` at its start, if it starts with it.
pub fn strip_prefix_char(s: &str, c: char) -> (r: Option<String>)
    ensures
        r is Some == (s@.len() > 0 && s@[0] == c),
        r matches Some(rest) ==> rest@ == s@.subrange(1, s@.len() as int),
{
    let n = s.unicode_len();
    if n > 0 && s.get_char(0) == c {
        Some(String::from_str(s.substring_char(1, n)))
    } else {
        None
    }
}

/// The position of the first `c` in `s`.
pub fn find_char(s: &str, c: char) -> (r: Option<usize>)
    ensures
        match r {
            Some(i) => first_index_of(s@, c) == Some(i as int),
            None => first_index_of(s@, c) is None,
        },
{
    let n = s.unicode_len();
    let mut i: usize = 0;
    while i < n
        invariant
            i <= n,
            n == s@.len(),
            forall|j: int| 0 <= j < i ==> s@[j] != c,
        decreases n - i,
    {
        if s.get_char(i) == c {
            proof {
                lemma_first_index_is(s@, c, i as int);
            }
            return Some(i);
        }
        i += 1;
    }
    proof {
        lemma_index_of_absent(s@, c);
    }
    None
}

/// The position of the last `c` in `s`.
pub fn rfind_char(s: &str, c: char) -> (r: Option<usize>)
    ensures
        match r {
            Some(i) => last_index_of(s@, c) == Some(i as int),
            None => last_index_of(s@, c) is None,
        },
{
    let n = s.unicode_len();
    let mut i: usize = n;
    while i > 0
        invariant
            i <= n,
            n == s@.len(),
            forall|j: int| i <= j < n ==> s@[j] != c,
        decreases i,
    {
        i -= 1;
        if s.get_char(i) == c {
            proof {
                lemma_last_index_is(s@, c, i as int);
            }
            return Some(i);
        }
    }
    proof {
        lemma_index_of_absent(s@, c);
    }
    None
}

/// The two strings, one after the other.
pub fn concat2(a: &str, b: &str) -> (r: String)
    ensures
        r@ == a@ + b@,
{
    let mut out = String::from_str(a);
    out.append(b);
    out
}

/// The three strings, one after the other.
pub fn concat3(a: &str, b: &str, c: &str) -> (r: String)
    ensures
        r@ == a@ + b@ + c@,
{
    let mut out = String::from_str(a);
    out.append(b);
    out.append(c);
    out
}

fn digit_str(d: usize) -> (r: &'static str)
    requires
        d < 10,
    ensures
        r@ == digit(d as nat),
{
    if d == 0 {
        "0"
    } else if d == 1 {
        "1"
    } else if d == 2 {
        "2"
    } else if d == 3 {
        "3"
    } else if d == 4 {
        "4"
    } else if d == 5 {
        "5"
    } else if d == 6 {
        "6"
    } else if d == 7 {
        "7"
    } else if d == 8 {
        "8"
    } else {
        "9"
    }
}

/// The decimal numeral of `n`.
pub fn decimal_string(n: usize) -> (r: String)
    ensures
        r@ == decimal(n as nat),
    decreases n,
{
    if n < 10 {
        String::from_str(digit_str(n))
    } else {
        let mut out = decimal_string(n / 10);
        out.append(digit_str(n % 10));
        out
    }
}

/// The pieces of `s` between its separators `::`, found from the left.
pub open spec fn split_path(s: Seq<char>) -> Seq<Seq<char>>
    decreases s.len(),
{
    if s.len() == 0 {
        seq![Seq::empty()]
    } else if s.len() >= 2 && s[0] == ':' && s[1] == ':' {
        seq![Seq::empty()] + split_path(s.skip(2))
    } else {
        let rest = split_path(s.skip(1));
        seq![seq![s[0]] + rest[0]] + rest.skip(1)
    }
}

/// A text has at least one piece.
pub proof fn lemma_split_path_len(s: Seq<char>)
    ensures
        split_path(s).len() >= 1,
    decreases s.len(),
{
    if s.len() == 0 {
    } else if s.len() >= 2 && s[0] == ':' && s[1] == ':' {
        lemma_split_path_len(s.skip(2));
    } else {
        lemma_split_path_len(s.skip(1));
    }
}

/// A text without `::` in it is its own single piece.
pub proof fn lemma_split_path_plain(s: Seq<char>)
    requires
        forall|i: int| 0 <= i < s.len() ==> s[i] != ':',
    ensures
        split_path(s) == seq![s],
    decreases s.len(),
{
    if s.len() > 0 {
        let rest = s.skip(1);
        assert forall|i: int| 0 <= i < rest.len() implies rest[i] != ':' by {
            assert(rest[i] == s[i + 1]);
        }
        lemma_split_path_plain(rest);
        assert(seq![s[0]] + rest =~= s);
        assert(split_path(s) =~= seq![s]);
    } else {
        assert(s =~= Seq::empty());
    }
}

fn split_from(s: &str, i: usize) -> (r: Vec<String>)
    requires
        i <= s@.len(),
    ensures
        strs_view(r@) == split_path(s@.skip(i as int)),
        r@.len() >= 1,
    decreases s@.len() - i,
{
    let n = s.unicode_len();
    let ghost tail = s@.skip(i as int);
    proof {
        lemma_split_path_len(tail);
    }
    if i == n {
        let mut out: Vec<String> = Vec::new();
        out.push(String::new());
        assert(strs_view(out@) =~= split_path(tail));
        out
    } else if n - i >= 2 && s.get_char(i) == ':' && s.get_char(i + 1) == ':' {
        let mut out = split_from(s, i + 2);
        let ghost rest = out@;
        assert(tail.skip(2) =~= s@.skip(i + 2));
        out.insert(0, String::new());
        assert(strs_view(out@) =~= seq![Seq::<char>::empty()] + strs_view(rest));
        out
    } else {
        let mut out = split_from(s, i + 1);
        let ghost rest = out@;
        assert(tail.skip(1) =~= s@.skip(i + 1));
        let head = out.remove(0);
        let first = concat2(s.substring_char(i, i + 1), head.as_str());
        assert(s@.subrange(i as int, i + 1) =~= seq![tail[0]]);
        out.insert(0, first);
        assert(strs_view(out@) =~= seq![seq![tail[0]] + strs_view(rest)[0]] + strs_view(rest).skip(
            1,
        ));
        out
    }
}

/// The pieces of `s` between its separators `::`.
pub fn split_double_colon(s: &str) -> (r: Vec<String>)
    ensures
        strs_view(r@) == split_path(s@),
        r@.len() >= 1,
{
    assert(s@.skip(0) =~= s@);
    split_from(s, 0)
}

/// The texts in `parts`, with `sep` between them.
pub open spec fn join(parts: Seq<Seq<char>>, sep: Seq<char>) -> Seq<char>
    decreases parts.len(),
{
    if parts.len() == 0 {
        Seq::empty()
    } else if parts.len() == 1 {
        parts[0]
    } else {
        join(parts.drop_last(), sep) + sep + parts.last()
    }
}

/// The texts in `parts`, with `sep` between them.
pub fn join_strings(parts: &Vec<String>, sep: &str) -> (r: String)
    ensures
        r@ == join(strs_view(parts@), sep@),
{
    let mut out = String::new();
    let ghost pv = strs_view(parts@);
    let mut i: usize = 0;
    while i < parts.len()
        invariant
            i <= parts.len(),
            pv == strs_view(parts@),
            out@ == join(pv.take(i as int), sep@),
        decreases parts.len() - i,
    {
        assert(pv.take(i + 1).drop_last() =~= pv.take(i as int));
        assert(pv.take(i + 1).last() == parts@[i as int]@);
        if i > 0 {
            out.append(sep);
        }
        out.append(parts[i].as_str());
        assert(out@ =~= join(pv.take(i + 1), sep@));
        i += 1;
    }
    assert(pv.take(i as int) =~= pv);
    out
}

/// The singular form that the inflection rules give for a word.
pub uninterp spec fn singular_of(word: Seq<char>) -> Seq<char>;

/// The Pascal-case form that the inflection rules give for a name.
pub uninterp spec fn pascal_case_of(name: Seq<char>) -> Seq<char>;

/// The lower-case form of a name.
pub uninterp spec fn lowercase_of(name: Seq<char>) -> Seq<char>;

/// Whether a character is white space: whether it has the Unicode
/// property `White_Space`. Those are the controls from the tabulator to
/// the carriage return, the space, the next-line control, the no-break
/// space, the Ogham space mark, the spaces from the en quad to the hair
/// space, the line and the paragraph separator, the narrow no-break space,
/// the medium mathematical space and the ideographic space.
pub open spec fn white_space(c: char) -> bool {
    let n: u32 = c as u32;
    ||| 0x09 <= n <= 0x0D
    ||| n == 0x20
    ||| n == 0x85
    ||| n == 0xA0
    ||| n == 0x1680
    ||| 0x2000 <= n <= 0x200A
    ||| n == 0x2028
    ||| n == 0x2029
    ||| n == 0x202F
    ||| n == 0x205F
    ||| n == 0x3000
}

/// Whether a character is white space.
pub fn is_whitespace(c: char) -> (r: bool)
    ensures
        r == white_space(c),
{
    let n: u32 = c as u32;
    (0x09 <= n && n <= 0x0D) || n == 0x20 || n == 0x85 || n == 0xA0 || n == 0x1680 || (0x2000 <= n
        && n <= 0x200A) || n == 0x2028 || n == 0x2029 || n == 0x202F || n == 0x205F || n == 0x3000
}

/// A text without the white space at its start.
pub open spec fn trim_start_of(text: Seq<char>) -> Seq<char>
    decreases text.len(),
{
    if text.len() > 0 && white_space(text[0]) {
        trim_start_of(text.skip(1))
    } else {
        text
    }
}

/// A text without the white space at its end.
pub open spec fn trim_end_of(text: Seq<char>) -> Seq<char>
    decreases text.len(),
{
    if text.len() > 0 && white_space(text.last()) {
        trim_end_of(text.drop_last())
    } else {
        text
    }
}

/// A text without the white space at its two ends.
pub open spec fn trimmed(text: Seq<char>) -> Seq<char> {
    trim_end_of(trim_start_of(text))
}

/// A text without the white space at its two ends.
pub fn trim(text: &str) -> (r: String)
    ensures
        r@ == trimmed(text@),
{
    let n = text.unicode_len();
    let mut start: usize = 0;
    let mut scanning = true;
    assert(text@.skip(0) =~= text@);
    while scanning && start < n
        invariant
            start <= n,
            n == text@.len(),
            trim_start_of(text@) == trim_start_of(text@.skip(start as int)),
            !scanning ==> start < n && !white_space(text@[start as int]),
        decreases n - start + if scanning { 1int } else { 0int },
    {
        if is_whitespace(text.get_char(start)) {
            assert(text@.skip(start as int).skip(1) =~= text@.skip(start + 1));
            start += 1;
        } else {
            scanning = false;
        }
    }
    let ghost rest = text@.skip(start as int);
    assert(trim_start_of(text@) == rest);
    let mut end: usize = n;
    scanning = true;
    assert(text@.subrange(start as int, n as int) =~= rest);
    while scanning && end > start
        invariant
            start <= end <= n,
            n == text@.len(),
            trim_end_of(rest) == trim_end_of(text@.subrange(start as int, end as int)),
            !scanning ==> end > start && !white_space(text@[end - 1]),
        decreases end - start + if scanning { 1int } else { 0int },
    {
        if is_whitespace(text.get_char(end - 1)) {
            assert(text@.subrange(start as int, end as int).drop_last() =~= text@.subrange(
                start as int,
                end - 1,
            ));
            end -= 1;
        } else {
            scanning = false;
        }
    }
    String::from_str(text.substring_char(start, end))
}

/// Calls `inflector::string::singularize::to_singular`. The result is a
/// function of the word alone (a fixed table of exceptions and rewriting
/// rules); the contract gives it the name `singular_of` and claims nothing
/// else of it.
#[verifier::external_body]
pub(crate) fn to_singular(word: &str) -> (r: String)
    ensures
        r@ == singular_of(word@),
{
    inflector::string::singularize::to_singular(word)
}

/// Calls `inflector::cases::pascalcase::to_pascal_case`. The result is a
/// function of the name alone; the contract gives it the name
/// `pascal_case_of` and claims nothing else of it.
#[verifier::external_body]
pub(crate) fn to_pascal_case(name: &str) -> (r: String)
    ensures
        r@ == pascal_case_of(name@),
{
    inflector::cases::pascalcase::to_pascal_case(name)
}

/// Calls `str::to_lowercase`. The result is a function of the text alone;
/// the contract gives it the name `lowercase_of` and claims nothing else of
/// it.
#[verifier::external_body]
pub(crate) fn to_lowercase(name: &str) -> (r: String)
    ensures
        r@ == lowercase_of(name@),
{
    name.to_lowercase()
}

} // verus!
