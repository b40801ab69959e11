//! Text helpers shared by the catalog and the addon host: identifier
//! normalisation and string comparison.
use vstd::prelude::*;
use vstd::string::StringExecFns;

verus! {

/// The five characters that count as ASCII whitespace: space, tab, line feed,
/// form feed and carriage return.
pub open spec fn is_ascii_space(c: char) -> bool {
    c == ' ' || c == '\t' || c == '\n' || c == '\x0C' || c == '\r'
}

/// `s` without its leading ASCII whitespace.
pub open spec fn trim_start(s: Seq<char>) -> Seq<char>
    decreases s.len(),
{
    if s.len() > 0 && is_ascii_space(s.first()) {
        trim_start(s.drop_first())
    } else {
        s
    }
}

/// `s` without its trailing ASCII whitespace.
pub open spec fn trim_end(s: Seq<char>) -> Seq<char>
    decreases s.len(),
{
    if s.len() > 0 && is_ascii_space(s.last()) {
        trim_end(s.drop_last())
    } else {
        s
    }
}

/// The canonical form of an identifier that came from outside: ASCII
/// whitespace removed at both ends.
pub open spec fn normalized(s: Seq<char>) -> Seq<char> {
    trim_end(trim_start(s))
}

/// An identifier is canonical when normalising it changes nothing.
pub open spec fn is_normalized(s: Seq<char>) -> bool {
    s.len() == 0 || (!is_ascii_space(s.first()) && !is_ascii_space(s.last()))
}

proof fn lemma_trim_start_head(s: Seq<char>)
    ensures
        trim_start(s).len() <= s.len(),
        trim_start(s).len() > 0 ==> !is_ascii_space(trim_start(s).first()),
    decreases s.len(),
{
    if s.len() > 0 && is_ascii_space(s.first()) {
        lemma_trim_start_head(s.drop_first());
    }
}

proof fn lemma_trim_end_tail(s: Seq<char>)
    ensures
        trim_end(s).len() <= s.len(),
        trim_end(s).len() > 0 ==> !is_ascii_space(trim_end(s).last()),
        trim_end(s).len() > 0 ==> trim_end(s).first() == s.first(),
    decreases s.len(),
{
    if s.len() > 0 && is_ascii_space(s.last()) {
        lemma_trim_end_tail(s.drop_last());
    }
}

/// Normalising yields a canonical identifier.
pub proof fn lemma_normalized_is_normalized(s: Seq<char>)
    ensures
        is_normalized(normalized(s)),
{
    lemma_trim_start_head(s);
    lemma_trim_end_tail(trim_start(s));
}

/// A canonical identifier is a fixed point of normalisation.
pub proof fn lemma_normalized_fixed_point(s: Seq<char>)
    requires
        is_normalized(s),
    ensures
        normalized(s) == s,
{
}

/// Normalising once is enough: a second pass changes nothing.
pub proof fn lemma_normalized_idempotent(s: Seq<char>)
    ensures
        normalized(normalized(s)) == normalized(s),
{
    lemma_normalized_is_normalized(s);
    lemma_normalized_fixed_point(normalized(s));
}

/// Whether two string slices hold the same characters.
pub(crate) fn str_eq(a: &str, b: &str) -> (same: bool)
    ensures
        same == (a@ == b@),
{
    let n = a.unicode_len();
    if b.unicode_len() != n {
        return false;
    }
    let mut i: usize = 0;
    while i < n
        invariant
            i <= n,
            n == a@.len(),
            n == b@.len(),
            forall|j: int| 0 <= j < i ==> a@[j] == b@[j],
        decreases n - i,
    {
        if a.get_char(i) != b.get_char(i) {
            return false;
        }
        i += 1;
    }
    assert(a@ =~= b@);
    true
}

/// Calls `str::trim_ascii`, which returns the slice without leading and
/// trailing ASCII whitespace, as `u8::is_ascii_whitespace` defines it.
#[verifier::external_body]
pub(crate) fn trim_ascii(s: &str) -> (trimmed: &str)
    ensures
        trimmed@ == normalized(s@),
{
    s.trim_ascii()
}

/// The canonical form of an identifier received from an addon or a remote
/// service. Every such identifier passes through here once, where it enters.
pub fn normalize_id(raw: &str) -> (id: String)
    ensures
        id@ == normalized(raw@),
        is_normalized(id@),
{
    proof {
        lemma_normalized_is_normalized(raw@);
    }
    trim_ascii(raw).to_owned()
}

/// Whether `items` holds a string equal to `key`.
pub fn contains_str(items: &Vec<String>, key: &str) -> (found: bool)
    ensures
        found == spec_contains(items.deep_view(), key@),
{
    let mut i: usize = 0;
    while i < items.len()
        invariant
            i <= items.len(),
            forall|j: int| 0 <= j < i ==> items[j]@ != key@,
        decreases items.len() - i,
    {
        if str_eq(items[i].as_str(), key) {
            assert(items.deep_view()[i as int] == key@);
            return true;
        }
        i += 1;
    }
    assert forall|j: int| 0 <= j < items.deep_view().len() implies items.deep_view()[j] != key@ by {
        assert(items.deep_view()[j] == items[j]@);
    }
    false
}

/// Membership in a list of strings, by contents.
pub open spec fn spec_contains(items: Seq<Seq<char>>, key: Seq<char>) -> bool {
    items.contains(key)
}

/// The strings of `items` in the order of their first occurrence, each once.
pub open spec fn spec_distinct(items: Seq<Seq<char>>) -> Seq<Seq<char>>
    decreases items.len(),
{
    if items.len() == 0 {
        Seq::empty()
    } else {
        let front = spec_distinct(items.drop_last());
        if front.contains(items.last()) {
            front
        } else {
            front.push(items.last())
        }
    }
}

/// `spec_distinct` keeps every string and repeats none.
pub proof fn lemma_distinct(items: Seq<Seq<char>>)
    ensures
        spec_distinct(items).no_duplicates(),
        forall|x: Seq<char>| #[trigger] spec_distinct(items).contains(x) <==> items.contains(x),
    decreases items.len(),
{
    if items.len() > 0 {
        let front = items.drop_last();
        let last = items.last();
        lemma_distinct(front);
        let kept = spec_distinct(front);
        let all = spec_distinct(items);
        assert forall|x: Seq<char>| all.contains(x) <==> items.contains(x) by {
            assert(kept.contains(x) <==> front.contains(x));
            if all.contains(x) {
                let i = choose|i: int| 0 <= i < all.len() && all[i] == x;
                if i < kept.len() {
                    assert(kept.contains(x));
                    let j = choose|j: int| 0 <= j < front.len() && front[j] == x;
                    assert(items[j] == x);
                } else {
                    assert(items[items.len() - 1] == x);
                }
            }
            if items.contains(x) {
                let j = choose|j: int| 0 <= j < items.len() && items[j] == x;
                if j < front.len() {
                    assert(front[j] == x);
                    assert(kept.contains(x));
                    let i = choose|i: int| 0 <= i < kept.len() && kept[i] == x;
                    assert(all[i] == x);
                } else {
                    if kept.contains(last) {
                    } else {
                        assert(all[all.len() - 1] == x);
                    }
                }
            }
        }
    }
}

/// The strings of `items` in the order of their first occurrence, each once.
pub fn distinct(items: &Vec<String>) -> (kept: Vec<String>)
    ensures
        kept.deep_view() == spec_distinct(items.deep_view()),
        kept.deep_view().no_duplicates(),
        forall|x: Seq<char>| kept.deep_view().contains(x) <==> items.deep_view().contains(x),
{
    let mut kept: Vec<String> = Vec::new();
    let mut i: usize = 0;
    assert(items.deep_view().take(0) =~= Seq::empty());
    assert(kept.deep_view() =~= Seq::empty());
    while i < items.len()
        invariant
            i <= items.len(),
            kept.deep_view() == spec_distinct(items.deep_view().take(i as int)),
        decreases items.len() - i,
    {
        let ghost before = kept.deep_view();
        proof {
            assert(items.deep_view().take(i + 1).drop_last() =~= items.deep_view().take(i as int));
            assert(items.deep_view().take(i + 1).last() == items[i as int]@);
        }
        if !contains_str(&kept, items[i].as_str()) {
            kept.push(items[i].clone());
            assert(kept.deep_view() =~= before.push(items[i as int]@));
        }
        i += 1;
    }
    proof {
        assert(items.deep_view().take(i as int) =~= items.deep_view());
        lemma_distinct(items.deep_view());
    }
    kept
}

/// Whether a character is one of the ten decimal digits.
pub open spec fn is_digit(c: char) -> bool {
    48 <= c as int <= 57
}

/// The number that a decimal digit stands for.
pub open spec fn digit_value(c: char) -> nat {
    (c as int - 48) as nat
}

/// The character of a decimal digit.
pub open spec fn digit_char(d: nat) -> char {
    (48 + d) as char
}

/// Every character of `s` is a decimal digit.
pub open spec fn all_digits(s: Seq<char>) -> bool {
    forall|i: int| 0 <= i < s.len() ==> is_digit(#[trigger] s[i])
}

/// The number that a string of decimal digits writes.
pub open spec fn spec_decimal_value(s: Seq<char>) -> nat
    decreases s.len(),
{
    if s.len() == 0 {
        0
    } else {
        spec_decimal_value(s.drop_last()) * 10 + digit_value(s.last())
    }
}

/// The number that `s` writes in decimal digits: `Some` exactly when `s` is
/// one digit or more, nothing else, and the number fits in 64 bits.
pub open spec fn spec_parse_decimal(s: Seq<char>) -> Option<u64> {
    if s.len() > 0 && all_digits(s) && spec_decimal_value(s) <= u64::MAX {
        Some(spec_decimal_value(s) as u64)
    } else {
        None
    }
}

/// The decimal digits of a number, without leading zeros.
pub open spec fn spec_decimal_text(n: nat) -> Seq<char>
    decreases n,
{
    if n < 10 {
        seq![digit_char(n)]
    } else {
        spec_decimal_text(n / 10).push(digit_char(n % 10))
    }
}

proof fn lemma_decimal_value_grows(s: Seq<char>, n: int)
    requires
        0 <= n <= s.len(),
    ensures
        spec_decimal_value(s.take(n)) <= spec_decimal_value(s),
    decreases s.len() - n,
{
    if n == s.len() {
        assert(s.take(n) =~= s);
    } else {
        lemma_decimal_value_grows(s, n + 1);
        assert(s.take(n + 1).drop_last() =~= s.take(n));
    }
}

/// Reading back what was written gives the number: the decimal digits of a
/// number that fits in 64 bits parse to that number.
pub proof fn lemma_decimal_round_trip(n: nat)
    requires
        n <= u64::MAX,
    ensures
        spec_parse_decimal(spec_decimal_text(n)) == Some(n as u64),
{
    lemma_decimal_text(n);
}

proof fn lemma_decimal_text(n: nat)
    ensures
        spec_decimal_text(n).len() > 0,
        all_digits(spec_decimal_text(n)),
        spec_decimal_value(spec_decimal_text(n)) == n,
    decreases n,
{
    let text = spec_decimal_text(n);
    if n < 10 {
        assert(text.drop_last() =~= Seq::<char>::empty());
        assert(spec_decimal_value(text.drop_last()) == 0);
        assert(digit_char(n) as int == 48 + n);
        assert(text.last() == digit_char(n));
        assert(digit_value(text.last()) == n);
    } else {
        lemma_decimal_text(n / 10);
        let front = spec_decimal_text(n / 10);
        assert(text.drop_last() =~= front);
        assert(digit_char(n % 10) as int == 48 + n % 10);
        assert(text.last() == digit_char(n % 10));
        assert(digit_value(text.last()) == n % 10);
        assert(spec_decimal_value(text) == spec_decimal_value(front) * 10 + n % 10);
        assert forall|i: int| 0 <= i < text.len() implies is_digit(#[trigger] text[i]) by {
            if i < front.len() {
                assert(text[i] == front[i]);
            }
        }
    }
}

/// The number that `text` writes in decimal digits.
pub fn parse_decimal(text: &str) -> (number: Option<u64>)
    ensures
        number == spec_parse_decimal(text@),
{
    let n = text.unicode_len();
    if n == 0 {
        return None;
    }
    let mut value: u64 = 0;
    let mut i: usize = 0;
    assert(text@.take(0) =~= Seq::<char>::empty());
    while i < n
        invariant
            i <= n,
            n == text@.len(),
            all_digits(text@.take(i as int)),
            value == spec_decimal_value(text@.take(i as int)),
        decreases n - i,
    {
        let c = text.get_char(i);
        let code: u32 = c as u32;
        proof {
            assert(text@.take(i + 1).drop_last() =~= text@.take(i as int));
            assert(text@.take(i + 1).last() == c);
        }
        if code < 48 || code > 57 {
            assert(!is_digit(text@[i as int]));
            return None;
        }
        let digit: u64 = (code - 48) as u64;
        if value > (0xffff_ffff_ffff_ffff - digit) / 10 {
            proof {
                lemma_decimal_value_grows(text@, i + 1);
            }
            return None;
        }
        value = value * 10 + digit;
        proof {
            assert forall|j: int| 0 <= j < i + 1 implies is_digit(#[trigger] text@.take(i + 1)[j]) by {
                if j < i {
                    assert(text@.take(i as int)[j] == text@[j]);
                }
            }
        }
        i += 1;
    }
    assert(text@.take(i as int) =~= text@);
    Some(value)
}

/// Calls `u64`'s `to_string`, which writes the number in decimal digits
/// without sign or leading zeros.
#[verifier::external_body]
pub(crate) fn decimal_text(number: u64) -> (text: String)
    ensures
        text@ == spec_decimal_text(number as nat),
{
    number.to_string()
}

/// The strings one after another.
pub fn concat3(a: &str, b: &str, c: &str) -> (joined: String)
    ensures
        joined@ == a@ + b@ + c@,
{
    let mut joined = a.to_owned();
    joined.append(b);
    joined.append(c);
    joined
}

} // verus!
