//! Text helpers shared by the rest of the library: decimal rendering,
//! trimming, comparison and UTF-8 decoding, each with an exact contract
//! over `Seq<char>`.

use vstd::prelude::*;
use vstd::string::StringExecFns;
use vstd::string::StrSliceExecFns;
use vstd::utf8::decode_utf8;
use vstd::utf8::valid_utf8;

verus! {

/// The character that stands for the decimal digit `d` (for `d < 10`).
pub open spec fn digit_char(d: nat) -> char {
    if d == 0 {
        '0'
    } else if d == 1 {
        '1'
    } else if d == 2 {
        '2'
    } else if d == 3 {
        '3'
    } else if d == 4 {
        '4'
    } else if d == 5 {
        '5'
    } else if d == 6 {
        '6'
    } else if d == 7 {
        '7'
    } else if d == 8 {
        '8'
    } else {
        '9'
    }
}

/// The decimal numeral of `n`: no sign, no leading zero, `"0"` for zero.
pub open spec fn decimal(n: nat) -> Seq<char>
    decreases n,
{
    if n < 10 {
        seq![digit_char(n)]
    } else {
        decimal(n / 10).push(digit_char(n % 10))
    }
}

/// The digit that the character `c` stands for; zero for a character that
/// is no digit.
pub open spec fn digit_value(c: char) -> nat {
    if c == '1' {
        1
    } else if c == '2' {
        2
    } else if c == '3' {
        3
    } else if c == '4' {
        4
    } else if c == '5' {
        5
    } else if c == '6' {
        6
    } else if c == '7' {
        7
    } else if c == '8' {
        8
    } else if c == '9' {
        9
    } else {
        0
    }
}

/// The number that a sequence of digits stands for, read as a decimal
/// numeral.
pub open spec fn numeral_value(s: Seq<char>) -> nat
    decreases s.len(),
{
    if s.len() == 0 {
        0
    } else {
        numeral_value(s.drop_last()) * 10 + digit_value(s.last())
    }
}

/// Reading a decimal numeral gives back the number that it was made from,
/// so different numbers have different numerals.
pub proof fn law_decimal_round_trip(n: nat)
    ensures
        numeral_value(decimal(n)) == n,
        decimal(n).len() >= 1,
    decreases n,
{
    if n < 10 {
        let s = seq![digit_char(n)];
        assert(s.drop_last() =~= Seq::<char>::empty());
        assert(s.last() == digit_char(n));
        assert(numeral_value(s.drop_last()) == 0);
    } else {
        law_decimal_round_trip(n / 10);
        let s = decimal(n / 10).push(digit_char(n % 10));
        assert(s.drop_last() =~= decimal(n / 10));
        assert(s.last() == digit_char(n % 10));
    }
}

/// Different numbers have different decimal numerals.
pub proof fn law_decimal_injective(m: nat, n: nat)
    requires
        decimal(m) == decimal(n),
    ensures
        m == n,
{
    law_decimal_round_trip(m);
    law_decimal_round_trip(n);
}

fn digit_str(d: u64) -> (r: &'static str)
    requires
        d < 10,
    ensures
        r@ == seq![digit_char(d as nat)],
{
    proof {
        reveal_strlit("0");
        reveal_strlit("1");
        reveal_strlit("2");
        reveal_strlit("3");
        reveal_strlit("4");
        reveal_strlit("5");
        reveal_strlit("6");
        reveal_strlit("7");
        reveal_strlit("8");
        reveal_strlit("9");
    }
    let r = if d == 0 {
        "0"
    } else if d == 1 {
        "1"
    } else if d == 2 {
        "2"
    } else if d == 3 {
        "3"
    } else if d == 4 {
        "4"
    } else if d == 5 {
        "5"
    } else if d == 6 {
        "6"
    } else if d == 7 {
        "7"
    } else if d == 8 {
        "8"
    } else {
        "9"
    };
    assert(r@ =~= seq![digit_char(d as nat)]);
    r
}

/// Renders `n` as a decimal numeral.
pub fn decimal_string(n: u64) -> (r: String)
    ensures
        r@ == decimal(n as nat),
    decreases n,
{
    if n < 10 {
        String::from_str(digit_str(n))
    } else {
        let mut s = decimal_string(n / 10);
        s.append(digit_str(n % 10));
        assert(s@ =~= decimal((n / 10) as nat).push(digit_char((n % 10) as nat)));
        s
    }
}

/// Whether two string slices hold the same characters.
pub fn str_eq(a: &str, b: &str) -> (same: bool)
    ensures
        same == (a@ == b@),
{
    let x = String::from_str(a);
    let y = String::from_str(b);
    x == y
}

/// `a` followed by `b`, as a new string.
pub fn concat2(a: &str, b: &str) -> (r: String)
    ensures
        r@ == a@ + b@,
{
    let mut r = String::from_str(a);
    r.append(b);
    r
}

/// The text of an optional string.
pub open spec fn opt_view(o: Option<String>) -> Option<Seq<char>> {
    match o {
        Some(s) => Some(s@),
        None => None,
    }
}

/// The texts that a vector of strings holds.
pub open spec fn views(v: Seq<String>) -> Seq<Seq<char>> {
    v.map_values(|s: String| s@)
}

/// The parts in order, with `sep` between each two neighbours.
pub open spec fn joined_with(parts: Seq<Seq<char>>, sep: Seq<char>) -> Seq<char>
    decreases parts.len(),
{
    if parts.len() == 0 {
        Seq::empty()
    } else if parts.len() == 1 {
        parts[0]
    } else {
        joined_with(parts.drop_last(), sep) + sep + parts.last()
    }
}

/// Joins the parts, with `sep` between each two neighbours.
pub fn join(parts: &Vec<String>, sep: &str) -> (r: String)
    ensures
        r@ == joined_with(views(parts@), sep@),
{
    let mut r = String::new();
    let mut i: usize = 0;
    while i < parts.len()
        invariant
            i <= parts@.len(),
            r@ == joined_with(views(parts@).take(i as int), sep@),
        decreases parts@.len() - i,
    {
        let ghost before = views(parts@).take(i as int);
        let ghost after = views(parts@).take(i + 1);
        proof {
            assert(after.drop_last() =~= before);
            assert(after.last() == parts@[i as int]@);
        }
        if i > 0 {
            r.append(sep);
        } else {
            assert(r@ + parts@[0]@ =~= parts@[0]@);
        }
        r.append(parts[i].as_str());
        i = i + 1;
    }
    assert(views(parts@).take(parts@.len() as int) =~= views(parts@));
    r
}

/// The characters of `s`, in order.
pub fn chars_of(s: &str) -> (v: Vec<char>)
    ensures
        v@ == s@,
{
    let mut v: Vec<char> = Vec::new();
    for c in it: s.chars()
        invariant
            v@ == it.seq().take(it.index()),
            it.seq() == s@,
    {
        v.push(c);
    }
    v
}

/// How many flags at the front are set.
pub open spec fn leading_run(flags: Seq<bool>) -> nat
    decreases flags.len(),
{
    if flags.len() > 0 && flags[0] {
        1 + leading_run(flags.drop_first())
    } else {
        0
    }
}

/// How many flags at the back are set.
pub open spec fn trailing_run(flags: Seq<bool>) -> nat
    decreases flags.len(),
{
    if flags.len() > 0 && flags.last() {
        1 + trailing_run(flags.drop_last())
    } else {
        0
    }
}

/// Where the stretch begins and ends that is left when the positions
/// whose flags are set are cut off at both ends. When every flag is set,
/// the stretch is empty.
pub open spec fn kept_bounds(flags: Seq<bool>) -> (int, int) {
    let start = leading_run(flags) as int;
    if start == flags.len() {
        (start, start)
    } else {
        (start, flags.len() - trailing_run(flags))
    }
}

/// One flag for each character of `s`: whether it satisfies `drop`.
pub open spec fn flags_of(s: Seq<char>, drop: spec_fn(char) -> bool) -> Seq<bool> {
    s.map_values(drop)
}

/// `s` without the characters at either end that satisfy `drop`.
pub open spec fn trimmed_by(s: Seq<char>, drop: spec_fn(char) -> bool) -> Seq<char> {
    let bounds = kept_bounds(flags_of(s, drop));
    s.subrange(bounds.0, bounds.1)
}

/// The flags that `leading_run` counts are the ones in front: each of
/// them is set, and the one after them, if there is one, is not.
pub proof fn law_leading_run(flags: Seq<bool>)
    ensures
        leading_run(flags) <= flags.len(),
        forall|k: int| 0 <= k < leading_run(flags) ==> #[trigger] flags[k],
        leading_run(flags) < flags.len() ==> !flags[leading_run(flags) as int],
    decreases flags.len(),
{
    if flags.len() > 0 && flags[0] {
        let rest = flags.drop_first();
        law_leading_run(rest);
        assert forall|k: int| 0 <= k < leading_run(flags) implies #[trigger] flags[k] by {
            if k > 0 {
                assert(rest[k - 1] == flags[k]);
            }
        }
        if leading_run(flags) < flags.len() {
            assert(rest[leading_run(rest) as int] == flags[leading_run(flags) as int]);
        }
    }
}

/// The flags that `trailing_run` counts are the ones at the back: each of
/// them is set, and the one before them, if there is one, is not.
pub proof fn law_trailing_run(flags: Seq<bool>)
    ensures
        trailing_run(flags) <= flags.len(),
        forall|k: int| flags.len() - trailing_run(flags) <= k < flags.len() ==> #[trigger] flags[k],
        trailing_run(flags) < flags.len() ==> !flags[flags.len() - trailing_run(flags) - 1],
    decreases flags.len(),
{
    if flags.len() > 0 && flags.last() {
        let rest = flags.drop_last();
        law_trailing_run(rest);
        assert forall|k: int|
            flags.len() - trailing_run(flags) <= k < flags.len() implies #[trigger] flags[k] by {
            if k < flags.len() - 1 {
                assert(rest[k] == flags[k]);
            }
        }
        if trailing_run(flags) < flags.len() {
            assert(rest[rest.len() - trailing_run(rest) - 1] == flags[flags.len() - trailing_run(
                flags,
            ) - 1]);
        }
    }
}

/// The stretch that is kept lies within the flags, and is not empty
/// unless every flag is set.
pub proof fn law_kept_bounds(flags: Seq<bool>)
    ensures
        0 <= kept_bounds(flags).0 <= kept_bounds(flags).1 <= flags.len(),
        kept_bounds(flags).0 < flags.len() ==> kept_bounds(flags).0 < kept_bounds(flags).1,
{
    law_leading_run(flags);
    law_trailing_run(flags);
    let start = leading_run(flags) as int;
    if start < flags.len() {
        let end = flags.len() - trailing_run(flags);
        if end <= start {
            assert(flags[start]);
        }
    }
}

/// Whether `t` is the stretch of `s` that begins at `start`, with nothing
/// but characters that satisfy `drop` in front of it and behind it.
pub open spec fn is_kept_at(s: Seq<char>, t: Seq<char>, drop: spec_fn(char) -> bool, start: int)
    -> bool {
    &&& 0 <= start
    &&& start + t.len() <= s.len()
    &&& t == s.subrange(start, start + t.len())
    &&& forall|k: int| 0 <= k < start ==> drop(#[trigger] s[k])
    &&& forall|k: int| start + t.len() <= k < s.len() ==> drop(#[trigger] s[k])
}

/// What is left after trimming is a stretch of the text that neither
/// begins nor ends with a character that satisfies `drop`; everything in
/// front of it and behind it does. Text that is trimmed already stays as
/// it is.
pub proof fn law_trimmed(s: Seq<char>, drop: spec_fn(char) -> bool)
    ensures
        ({
            let t = trimmed_by(s, drop);
            &&& t.len() <= s.len()
            &&& t.len() > 0 ==> !drop(t[0]) && !drop(t.last())
            &&& exists|start: int| #[trigger] is_kept_at(s, t, drop, start)
            &&& trimmed_by(t, drop) == t
        }),
{
    let flags = flags_of(s, drop);
    let t = trimmed_by(s, drop);
    let start = kept_bounds(flags).0;
    let end = kept_bounds(flags).1;
    law_leading_run(flags);
    law_trailing_run(flags);
    law_kept_bounds(flags);
    assert forall|k: int| 0 <= k < start implies drop(#[trigger] s[k]) by {
        assert(flags[k]);
    }
    assert forall|k: int| end <= k < s.len() implies drop(#[trigger] s[k]) by {
        assert(flags[k]);
    }
    assert(is_kept_at(s, t, drop, start));
    let inner = flags_of(t, drop);
    if t.len() > 0 {
        assert(t[0] == s[start]);
        assert(t.last() == s[end - 1]);
        assert(!flags[start]);
        assert(!flags[end - 1]);
        assert(inner[0] == drop(t[0]));
        assert(inner.last() == drop(t.last()));
        assert(leading_run(inner) == 0);
        assert(trailing_run(inner) == 0);
        assert(t.subrange(0, t.len() as int) =~= t);
    } else {
        assert(leading_run(inner) == 0);
        assert(t.subrange(0, 0) =~= t);
    }
}

proof fn lemma_leading_run(flags: Seq<bool>, i: int)
    requires
        0 <= i <= flags.len(),
        forall|k: int| 0 <= k < i ==> #[trigger] flags[k],
        i == flags.len() || !flags[i],
    ensures
        leading_run(flags) == i,
    decreases flags.len(),
{
    if i > 0 {
        let rest = flags.drop_first();
        assert(flags[0]);
        assert forall|k: int| 0 <= k < i - 1 implies #[trigger] rest[k] by {
            assert(rest[k] == flags[k + 1]);
        }
        if i < flags.len() {
            assert(rest[i - 1] == flags[i]);
        }
        lemma_leading_run(rest, i - 1);
    }
}

proof fn lemma_trailing_run(flags: Seq<bool>, j: int)
    requires
        0 <= j <= flags.len(),
        forall|k: int| j <= k < flags.len() ==> #[trigger] flags[k],
        j == 0 || !flags[j - 1],
    ensures
        trailing_run(flags) == flags.len() - j,
    decreases flags.len(),
{
    if j < flags.len() {
        let rest = flags.drop_last();
        assert(flags[flags.len() - 1]);
        assert forall|k: int| j <= k < rest.len() implies #[trigger] rest[k] by {
            assert(rest[k] == flags[k]);
        }
        if j > 0 {
            assert(rest[j - 1] == flags[j - 1]);
        }
        lemma_trailing_run(rest, j);
    }
}

/// Finds the stretch that is left when the positions whose flags are set
/// are cut off at both ends: where it begins and where it ends.
pub fn kept_range(flags: &Vec<bool>) -> (r: (usize, usize))
    ensures
        (r.0 as int, r.1 as int) == kept_bounds(flags@),
        r.0 <= r.1 <= flags@.len(),
{
    let n = flags.len();
    let mut start: usize = 0;
    while start < n && flags[start]
        invariant
            n == flags@.len(),
            start <= n,
            forall|k: int| 0 <= k < start ==> #[trigger] flags@[k],
        decreases n - start,
    {
        start = start + 1;
    }
    proof {
        lemma_leading_run(flags@, start as int);
    }
    if start == n {
        return (n, n);
    }
    let mut end: usize = n;
    while end > start && flags[end - 1]
        invariant
            n == flags@.len(),
            start < n,
            start <= end <= n,
            !flags@[start as int],
            forall|k: int| end <= k < n ==> #[trigger] flags@[k],
        decreases end,
    {
        end = end - 1;
    }
    proof {
        lemma_trailing_run(flags@, end as int);
    }
    (start, end)
}

/// Whether a character is whitespace: whether it has the Unicode property
/// White_Space. These are the tab, the line feed, the vertical tab, the
/// form feed, the carriage return and the blank; the next-line character
/// and the no-break space; the Ogham space mark; the spaces of fixed
/// width from the en quad to the hair space; the line and the paragraph
/// separator; the narrow no-break space, the medium mathematical space
/// and the ideographic space.
pub open spec fn whitespace(c: char) -> bool {
    let u = c as u32;
    ||| 0x09 <= u <= 0x0D
    ||| u == 0x20
    ||| u == 0x85
    ||| u == 0xA0
    ||| u == 0x1680
    ||| 0x2000 <= u <= 0x200A
    ||| u == 0x2028
    ||| u == 0x2029
    ||| u == 0x202F
    ||| u == 0x205F
    ||| u == 0x3000
}

/// Tells whether a character is whitespace.
pub fn is_whitespace(c: char) -> (b: bool)
    ensures
        b == whitespace(c),
{
    let u: u32 = c as u32;
    (0x09 <= u && u <= 0x0D) || u == 0x20 || u == 0x85 || u == 0xA0 || u == 0x1680 || (0x2000
        <= u && u <= 0x200A) || u == 0x2028 || u == 0x2029 || u == 0x202F || u == 0x205F || u
        == 0x3000
}

/// The predicate that holds of whitespace characters.
pub open spec fn any_whitespace() -> spec_fn(char) -> bool {
    |c: char| whitespace(c)
}

/// The predicate that holds of `ch` alone.
pub open spec fn only(ch: char) -> spec_fn(char) -> bool {
    |c: char| c == ch
}

/// `s` without leading and trailing whitespace.
pub open spec fn trimmed(s: Seq<char>) -> Seq<char> {
    trimmed_by(s, any_whitespace())
}

/// `s` without leading and trailing occurrences of `ch`.
pub open spec fn trimmed_of(s: Seq<char>, ch: char) -> Seq<char> {
    trimmed_by(s, only(ch))
}

/// Says of each character of `s` whether it is whitespace.
fn whitespace_flags(s: &str) -> (flags: Vec<bool>)
    ensures
        flags@ == flags_of(s@, any_whitespace()),
{
    let chars = chars_of(s);
    let mut flags: Vec<bool> = Vec::new();
    let mut i: usize = 0;
    while i < chars.len()
        invariant
            i <= chars@.len(),
            flags@.len() == i,
            forall|k: int| 0 <= k < i ==> flags@[k] == whitespace(#[trigger] chars@[k]),
        decreases chars@.len() - i,
    {
        flags.push(is_whitespace(chars[i]));
        i = i + 1;
    }
    assert(flags@ =~= flags_of(s@, any_whitespace()));
    flags
}

/// Says of each character of `s` whether it is `ch`.
fn match_flags(s: &str, ch: char) -> (flags: Vec<bool>)
    ensures
        flags@ == flags_of(s@, only(ch)),
{
    let chars = chars_of(s);
    let mut flags: Vec<bool> = Vec::new();
    let mut i: usize = 0;
    while i < chars.len()
        invariant
            i <= chars@.len(),
            flags@.len() == i,
            forall|k: int| 0 <= k < i ==> flags@[k] == (#[trigger] chars@[k] == ch),
        decreases chars@.len() - i,
    {
        flags.push(chars[i] == ch);
        i = i + 1;
    }
    assert(flags@ =~= flags_of(s@, only(ch)));
    flags
}

/// `s` without the characters at either end whose flags are set. `flags`
/// holds one flag for each character of `s`.
fn trim_flagged(s: &str, flags: &Vec<bool>) -> (r: String)
    requires
        flags@.len() == s@.len(),
    ensures
        r@ == s@.subrange(kept_bounds(flags@).0, kept_bounds(flags@).1),
{
    let (start, end) = kept_range(flags);
    String::from_str(s.substring_char(start, end))
}

/// Removes leading and trailing whitespace.
pub fn trim(s: &str) -> (r: String)
    ensures
        r@ == trimmed(s@),
{
    let flags = whitespace_flags(s);
    trim_flagged(s, &flags)
}

/// Removes every leading and trailing occurrence of `ch`.
pub fn trim_matches(s: &str, ch: char) -> (r: String)
    ensures
        r@ == trimmed_of(s@, ch),
{
    let flags = match_flags(s, ch);
    trim_flagged(s, &flags)
}

/// Calls `String::from_utf8`: the bytes decode exactly when they are valid
/// UTF-8, and then to the characters they encode.
#[verifier::external_body]
fn string_from_utf8(bytes: Vec<u8>) -> (r: Option<String>)
    ensures
        r is Some <==> valid_utf8(bytes@),
        r matches Some(s) ==> s@ == decode_utf8(bytes@),
{
    String::from_utf8(bytes).ok()
}

/// The text that `bytes` encode, if they are valid UTF-8.
pub open spec fn decoded(bytes: Seq<u8>) -> Option<Seq<char>> {
    if valid_utf8(bytes) {
        Some(decode_utf8(bytes))
    } else {
        None
    }
}

/// Decodes `bytes` as UTF-8; `None` when they are not valid UTF-8.
pub fn decode(bytes: Vec<u8>) -> (r: Option<String>)
    ensures
        r is Some <==> decoded(bytes@) is Some,
        r matches Some(s) ==> decoded(bytes@) == Some(s@),
{
    string_from_utf8(bytes)
}

/// The decimal numeral of `i`, with a minus sign in front of a negative
/// number.
pub open spec fn signed_decimal(i: int) -> Seq<char> {
    if i < 0 {
        seq!['-'] + decimal((-i) as nat)
    } else {
        decimal(i as nat)
    }
}

/// Renders `i` as a decimal numeral, with its sign if it is negative.
pub fn signed_decimal_string(i: i32) -> (r: String)
    ensures
        r@ == signed_decimal(i as int),
{
    if i < 0 {
        let magnitude: u64 = (-(i as i64)) as u64;
        proof {
            reveal_strlit("-");
            assert("-"@ =~= seq!['-']);
        }
        let mut r = String::from_str("-");
        r.append(decimal_string(magnitude).as_str());
        r
    } else {
        decimal_string(i as u64)
    }
}

/// Names the text that `String::from_utf8_lossy` makes of some bytes.
pub uninterp spec fn lossy_text(bytes: Seq<u8>) -> Seq<char>;

/// Calls `String::from_utf8_lossy`, which decodes valid UTF-8 as it is
/// and puts a replacement character in the place of what is not valid.
/// The contract names the text, and says what it is for valid UTF-8.
#[verifier::external_body]
fn string_from_utf8_lossy(bytes: &Vec<u8>) -> (r: String)
    ensures
        r@ == lossy_text(bytes@),
        valid_utf8(bytes@) ==> r@ == decode_utf8(bytes@),
{
    String::from_utf8_lossy(bytes).into_owned()
}

/// Decodes `bytes` as UTF-8, with a replacement character in the place of
/// every part that is not valid.
pub fn decode_lossy(bytes: &Vec<u8>) -> (r: String)
    ensures
        r@ == lossy_text(bytes@),
        valid_utf8(bytes@) ==> r@ == decode_utf8(bytes@),
{
    string_from_utf8_lossy(bytes)
}

} // verus!
