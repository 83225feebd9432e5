//! Character-level text utilities: comparison, scanning and the small
//! grammars the board enforces on user-supplied text.

use vstd::prelude::*;

use vstd::string::{StrSliceExecFns, StringExecFns};

verus! {

/// Whether the Unicode character counts as alphabetic or numeric.
/// Too wide to state; it is a function of the character alone.
pub uninterp spec fn spec_is_alphanumeric(c: char) -> bool;

/// Whether the Unicode character counts as whitespace.
pub uninterp spec fn spec_is_whitespace(c: char) -> bool;

/// Relies on std's `char::is_alphanumeric`: the Unicode alphabetic/numeric
/// classes, which contain at least the ASCII letters and digits.
#[verifier::external_body]
pub(crate) fn char_is_alphanumeric(c: char) -> (r: bool)
    ensures
        r == spec_is_alphanumeric(c),
        is_ascii_alphanumeric(c) ==> r,
{
    c.is_alphanumeric()
}

/// Relies on std's `char::is_whitespace`: the Unicode whitespace class, which
/// contains at least space, tab and line feed, and no ASCII letter or digit.
#[verifier::external_body]
pub(crate) fn char_is_whitespace(c: char) -> (r: bool)
    ensures
        r == spec_is_whitespace(c),
        c == ' ' || c == '\t' || c == '\n' || c == '\r' ==> r,
        is_ascii_alphanumeric(c) ==> !r,
{
    c.is_whitespace()
}

/// ASCII letters and digits.
pub open spec fn is_ascii_alphanumeric(c: char) -> bool {
    ('0' <= c && c <= '9') || ('a' <= c && c <= 'z') || ('A' <= c && c <= 'Z')
}

/// Character-sequence equality of two string slices.
pub fn str_eq(a: &str, b: &str) -> (r: bool)
    ensures
        r == (a@ == b@),
{
    let n = a.unicode_len();
    let m = b.unicode_len();
    if n != m {
        return false;
    }
    let mut i: usize = 0;
    while i < n
        invariant
            n == a@.len(),
            n == b@.len(),
            i <= n,
            forall|j: int| 0 <= j < i ==> a@[j] == b@[j],
        decreases n - i,
    {
        if a.get_char(i) != b.get_char(i) {
            return false;
        }
        i = i + 1;
    }
    proof {
        assert(a@ =~= b@);
    }
    true
}

/// Whether `s` equals the option's content, where an absent option matches
/// nothing.
pub fn opt_str_eq(probe: Option<&str>, s: &str) -> (r: bool)
    ensures
        r == (opt_str_view(probe) == Some(s@)),
{
    match probe {
        Some(p) => str_eq(p, s),
        None => false,
    }
}

/// The view of an optional string slice.
pub open spec fn opt_str_view(o: Option<&str>) -> Option<Seq<char>> {
    match o {
        Some(s) => Some(s@),
        None => None,
    }
}

/// The view of an optional owned string.
pub open spec fn opt_string_view(o: Option<String>) -> Option<Seq<char>> {
    match o {
        Some(s) => Some(s@),
        None => None,
    }
}

/// The views of a sequence of owned strings.
pub open spec fn str_views(parts: Seq<String>) -> Seq<Seq<char>> {
    parts.map_values(|s: String| s@)
}

/// The parts joined by the separator: empty for no parts, and no separator
/// around a single part.
pub open spec fn spec_join(parts: Seq<Seq<char>>, sep: Seq<char>) -> Seq<char>
    decreases parts.len(),
{
    if parts.len() == 0 {
        Seq::empty()
    } else if parts.len() == 1 {
        parts[0]
    } else {
        spec_join(parts.drop_last(), sep) + sep + parts.last()
    }
}

/// The string with leading Unicode whitespace dropped.
pub open spec fn spec_trim_front(s: Seq<char>) -> Seq<char>
    decreases s.len(),
{
    if s.len() > 0 && spec_is_whitespace(s.first()) {
        spec_trim_front(s.drop_first())
    } else {
        s
    }
}

/// The string with trailing Unicode whitespace dropped.
pub open spec fn spec_trim_back(s: Seq<char>) -> Seq<char>
    decreases s.len(),
{
    if s.len() > 0 && spec_is_whitespace(s.last()) {
        spec_trim_back(s.drop_last())
    } else {
        s
    }
}

/// The string with whitespace dropped from both ends.
pub open spec fn spec_trim(s: Seq<char>) -> Seq<char> {
    spec_trim_back(spec_trim_front(s))
}

/// Drops Unicode whitespace from both ends of a string.
#[verifier::loop_isolation(false)]
pub fn trim_str(s: &str) -> (r: String)
    ensures
        r@ == spec_trim(s@),
{
    let n = s.unicode_len();
    proof {
        assert(s@.subrange(0, n as int) =~= s@);
    }
    let mut start: usize = 0;
    while start < n && char_is_whitespace(s.get_char(start))
        invariant
            start <= n,
            spec_trim_front(s@) == spec_trim_front(s@.subrange(start as int, n as int)),
        decreases n - start,
    {
        proof {
            assert(s@.subrange(start as int, n as int).drop_first() =~= s@.subrange(
                start as int + 1,
                n as int,
            ));
        }
        start = start + 1;
    }
    proof {
        assert(spec_trim_front(s@) == s@.subrange(start as int, n as int));
    }
    let mut end: usize = n;
    while end > start && char_is_whitespace(s.get_char(end - 1))
        invariant
            start <= end <= n,
            spec_trim_back(s@.subrange(start as int, n as int)) == spec_trim_back(
                s@.subrange(start as int, end as int),
            ),
        decreases end,
    {
        proof {
            assert(s@.subrange(start as int, end as int).drop_last() =~= s@.subrange(
                start as int,
                end as int - 1,
            ));
        }
        end = end - 1;
    }
    proof {
        assert(spec_trim(s@) == s@.subrange(start as int, end as int));
    }
    String::from_str(s.substring_char(start, end))
}

/// Whether a body is a bare linking token: exactly 32 ASCII letters or
/// digits once surrounding whitespace is dropped.
pub open spec fn spec_potentially_exposed_token(s: Seq<char>) -> bool {
    let trimmed = spec_trim(s);
    trimmed.len() == 32 && (forall|k: int| 0 <= k < 32 ==> is_ascii_alphanumeric(trimmed[k]))
}

/// Whether a body is a bare raw linking token — the shape users must never
/// post as-is.
#[verifier::loop_isolation(false)]
pub fn is_potentially_exposed_token(body: &str) -> (r: bool)
    ensures
        r == spec_potentially_exposed_token(body@),
{
    let trimmed = trim_str(body);
    let t = trimmed.as_str();
    let n = t.unicode_len();
    if n != 32 {
        return false;
    }
    let mut i: usize = 0;
    while i < n
        invariant
            i <= n,
            n == t@.len(),
            t@ == spec_trim(body@),
            forall|k: int| 0 <= k < i ==> is_ascii_alphanumeric(t@[k]),
        decreases n - i,
    {
        let c = t.get_char(i);
        let u = c as u32;
        let alnum = (48 <= u && u <= 57) || (97 <= u && u <= 122) || (65 <= u && u <= 90);
        if !alnum {
            return false;
        }
        i = i + 1;
    }
    true
}

/// Whether position `i` of the text starts a linking-token reference:
/// `!token(` followed by exactly 32 ASCII letters or digits and `)`.
pub open spec fn spec_token_match_at(s: Seq<char>, i: int) -> bool {
    &&& 0 <= i
    &&& i + 40 <= s.len()
    &&& s.subrange(i, i + 7) == "!token("@
    &&& (forall|k: int| i + 7 <= k < i + 39 ==> is_ascii_alphanumeric(s[k]))
    &&& s[i + 39] == ')'
}

/// The first position where a linking-token reference starts, at or after
/// `i`.
pub open spec fn spec_first_token_match(s: Seq<char>, i: int) -> Option<int>
    decreases s.len() - i,
{
    if i < 0 || i + 40 > s.len() {
        None
    } else if spec_token_match_at(s, i) {
        Some(i)
    } else {
        spec_first_token_match(s, i + 1)
    }
}

/// Whether position `i` starts a linking-token reference (executable form).
#[verifier::loop_isolation(false)]
fn token_match_at(s: &str, n: usize, i: usize) -> (r: bool)
    requires
        n == s@.len(),
        i + 40 <= n,
    ensures
        r == spec_token_match_at(s@, i as int),
{
    let head = s.substring_char(i, i + 7);
    if !str_eq(head, "!token(") {
        return false;
    }
    if s.get_char(i + 39) != ')' {
        return false;
    }
    let mut k: usize = i + 7;
    while k < i + 39
        invariant
            i + 7 <= k <= i + 39,
            forall|q: int| i + 7 <= q < k ==> is_ascii_alphanumeric(s@[q]),
        decreases i + 39 - k,
    {
        let c = s.get_char(k);
        let u = c as u32;
        let alnum = (48 <= u && u <= 57) || (97 <= u && u <= 122) || (65 <= u && u <= 90);
        if !alnum {
            return false;
        }
        k = k + 1;
    }
    true
}

/// Extracts the first linking-token reference from a body, handing back the
/// bare 32-character token and the body with the reference cut out and
/// trimmed. A body without one comes back unchanged.
#[verifier::loop_isolation(false)]
pub fn extract_and_remove_linking_token(body: &str) -> (r: (Option<String>, String))
    ensures
        ({
            match spec_first_token_match(body@, 0) {
                Some(i) => {
                    &&& r.0 matches Some(t) && t@ == body@.subrange(i + 7, i + 39)
                    &&& r.1@ == spec_trim(
                        body@.subrange(0, i) + body@.subrange(i + 40, body@.len() as int),
                    )
                },
                None => r.0 is None && r.1@ == body@,
            }
        }),
{
    let n = body.unicode_len();
    if n >= 40 {
        let mut i: usize = 0;
        while i <= n - 40
            invariant
                n >= 40,
                n == body@.len(),
                i <= n - 40 + 1,
                spec_first_token_match(body@, 0) == spec_first_token_match(body@, i as int),
            decreases n - i,
        {
            if token_match_at(body, n, i) {
                let token = String::from_str(body.substring_char(i + 7, i + 39));
                let mut cleaned = String::from_str(body.substring_char(0, i));
                cleaned.append(body.substring_char(i + 40, n));
                let final_body = trim_str(cleaned.as_str());
                return (Some(token), final_body);
            }
            i = i + 1;
        }
    }
    (None, String::from_str(body))
}

/// Whether the 15 characters starting at `i` are all alphanumeric.
pub open spec fn spec_alnum_window(s: Seq<char>, i: int) -> bool {
    forall|k: int| i <= k < i + 15 ==> spec_is_alphanumeric(s[k])
}

/// Whether the text holds a run of 15 or more consecutive alphanumeric
/// characters.
pub open spec fn spec_has_long_alnum_run(s: Seq<char>) -> bool {
    exists|i: int| 0 <= i && i + 15 <= s.len() && spec_alnum_window(s, i)
}

/// Whether the text holds a linking-token reference anywhere.
pub open spec fn spec_has_token_reference(s: Seq<char>) -> bool {
    spec_first_token_match(s, 0) is Some
}

/// Whether the text holds a run of 15 or more consecutive alphanumeric
/// characters (executable form).
#[verifier::loop_isolation(false)]
fn has_long_alnum_run(s: &str) -> (r: bool)
    ensures
        r == spec_has_long_alnum_run(s@),
{
    let n = s.unicode_len();
    let mut run: usize = 0;
    let mut i: usize = 0;
    while i < n
        invariant
            i <= n,
            n == s@.len(),
            run <= i,
            run < 15,
            forall|k: int| i - run <= k < i ==> spec_is_alphanumeric(s@[k]),
            i - run > 0 ==> !spec_is_alphanumeric(s@[i - run - 1]),
            forall|j: int| 0 <= j && j + 15 <= i ==> !spec_alnum_window(s@, j),
        decreases n - i,
    {
        if char_is_alphanumeric(s.get_char(i)) {
            run = run + 1;
            if run >= 15 {
                proof {
                    assert(spec_alnum_window(s@, i + 1 - 15));
                }
                return true;
            }
        } else {
            run = 0;
        }
        i = i + 1;
    }
    proof {
        assert forall|j: int| 0 <= j && j + 15 <= s@.len() implies !spec_alnum_window(s@, j) by {
            assert(j + 15 <= i);
        }
    }
    false
}

/// Whether the text holds a linking-token reference (executable form).
#[verifier::loop_isolation(false)]
fn has_token_reference(s: &str) -> (r: bool)
    ensures
        r == spec_has_token_reference(s@),
{
    let n = s.unicode_len();
    if n < 40 {
        return false;
    }
    let mut i: usize = 0;
    while i <= n - 40
        invariant
            n >= 40,
            n == s@.len(),
            i <= n - 40 + 1,
            spec_first_token_match(s@, 0) == spec_first_token_match(s@, i as int),
        decreases n - i,
    {
        if token_match_at(s, n, i) {
            return true;
        }
        i = i + 1;
    }
    false
}

/// The field rule most text inputs obey: no run of 15 or more consecutive
/// alphanumeric characters (which hides tokens and spam), and no
/// linking-token reference.
pub fn validate_no_suspicious_sequences(text: &str) -> (r: Result<(), String>)
    ensures
        r is Ok <==> !spec_has_long_alnum_run(text@) && !spec_has_token_reference(text@),
        spec_has_long_alnum_run(text@) ==> (r matches Err(m) && m@
            == "Runs of 15 or more letters and digits are not allowed."@),
        !spec_has_long_alnum_run(text@) && spec_has_token_reference(text@) ==> (r matches Err(m)
            && m@ == "A linking token cannot be used in this field."@),
{
    if has_long_alnum_run(text) {
        return Err(String::from_str("Runs of 15 or more letters and digits are not allowed."));
    }
    if has_token_reference(text) {
        return Err(String::from_str("A linking token cannot be used in this field."));
    }
    Ok(())
}

/// The body-only rule: long alphanumeric runs are fine there, but a
/// linking-token reference still is not.
pub fn validate_body_sequences(text: &str) -> (r: Result<(), String>)
    ensures
        r is Ok <==> !spec_has_token_reference(text@),
        r matches Err(m) ==> m@ == "A linking token cannot be used in this field."@,
{
    if has_token_reference(text) {
        return Err(String::from_str("A linking token cannot be used in this field."));
    }
    Ok(())
}

/// ASCII decimal digits.
pub open spec fn spec_is_ascii_digit(c: char) -> bool {
    '0' <= c && c <= '9'
}

/// The value of a digit string, most significant digit first.
pub open spec fn spec_digits_value(s: Seq<char>) -> int
    decreases s.len(),
{
    if s.len() == 0 {
        0
    } else {
        spec_digits_value(s.drop_last()) * 10 + (s.last() as u32 - '0' as u32)
    }
}

/// A digit string's value is never negative.
pub proof fn lemma_digits_value_nonneg(s: Seq<char>)
    requires
        forall|i: int| 0 <= i < s.len() ==> spec_is_ascii_digit(s[i]),
    ensures
        spec_digits_value(s) >= 0,
    decreases s.len(),
{
    if s.len() > 0 {
        lemma_digits_value_nonneg(s.drop_last());
    }
}

/// Extending a digit string never shrinks its value.
pub proof fn lemma_digits_value_prefix(s: Seq<char>, m: int)
    requires
        forall|i: int| 0 <= i < s.len() ==> spec_is_ascii_digit(s[i]),
        0 <= m <= s.len(),
    ensures
        spec_digits_value(s.take(m)) <= spec_digits_value(s),
    decreases s.len() - m,
{
    if m == s.len() {
        assert(s.take(m) =~= s);
    } else {
        let p = s.take(m);
        let q = s.take(m + 1);
        assert(q.drop_last() =~= p);
        lemma_digits_value_nonneg(p);
        lemma_digits_value_prefix(s, m + 1);
    }
}

/// The signed value of a parse's digit part, where every character is a
/// digit, there is at least one, and the value fits the type.
pub open spec fn spec_parse_i32_body(neg: bool, body: Seq<char>) -> Option<int> {
    if body.len() == 0 || (exists|i: int| 0 <= i < body.len() && !spec_is_ascii_digit(body[i])) {
        None
    } else {
        let v = if neg {
            -spec_digits_value(body)
        } else {
            spec_digits_value(body)
        };
        if i32::MIN <= v <= i32::MAX {
            Some(v)
        } else {
            None
        }
    }
}

/// What std's integer parsing accepts for an `i32`: an optional sign, then
/// one or more decimal digits and nothing else, with the value in range.
pub open spec fn spec_parse_i32(s: Seq<char>) -> Option<int> {
    if s.len() > 0 && s[0] == '-' {
        spec_parse_i32_body(true, s.drop_first())
    } else if s.len() > 0 && s[0] == '+' {
        spec_parse_i32_body(false, s.drop_first())
    } else {
        spec_parse_i32_body(false, s)
    }
}

/// Parses a decimal `i32` exactly as std does: an optional sign, then one
/// or more digits and nothing else; anything outside the type's range is
/// refused.
#[verifier::loop_isolation(false)]
pub fn parse_i32(s: &str) -> (r: Option<i32>)
    ensures
        match r {
            Some(v) => spec_parse_i32(s@) == Some(v as int),
            None => spec_parse_i32(s@) is None,
        },
{
    let n = s.unicode_len();
    if n == 0 {
        return None;
    }
    let first = s.get_char(0);
    let neg = first == '-';
    let start: usize = if first == '-' || first == '+' {
        1
    } else {
        0
    };
    proof {
        if start == 1 {
            assert(s@.drop_first() =~= s@.subrange(1, n as int));
        } else {
            assert(s@.subrange(0, n as int) =~= s@);
        }
    }
    let ghost body = s@.subrange(start as int, n as int);
    proof {
        assert(spec_parse_i32(s@) == spec_parse_i32_body(neg, body));
    }
    if start == n {
        return None;
    }
    let mut acc: i64 = 0;
    let mut j: usize = start;
    proof {
        assert(body.take(0) =~= Seq::<char>::empty());
    }
    while j < n
        invariant
            start <= j <= n,
            body == s@.subrange(start as int, n as int),
            acc == spec_digits_value(body.take(j - start)),
            0 <= acc <= 0x8000_0000,
            forall|q: int| 0 <= q < j - start ==> spec_is_ascii_digit(body[q]),
        decreases n - j,
    {
        let c = s.get_char(j);
        let u = c as u32;
        if !(48 <= u && u <= 57) {
            proof {
                assert(0 <= j - start < body.len());
                assert(!spec_is_ascii_digit(body[j - start]));
                assert(exists|q: int| 0 <= q < body.len() && !spec_is_ascii_digit(body[q]));
                assert(spec_parse_i32_body(neg, body) is None);
            }
            return None;
        }
        proof {
            assert(body.take(j - start + 1).drop_last() =~= body.take(j - start));
            assert(body.take(j - start + 1).last() == body[j - start]);
        }
        acc = acc * 10 + ((u - 48) as i64);
        j = j + 1;
        if acc > 0x8000_0000 {
            // The digits read so far already overrun the type; whatever
            // follows can only push the value further out.
            proof {
                if forall|q: int| 0 <= q < body.len() ==> spec_is_ascii_digit(body[q]) {
                    lemma_digits_value_prefix(body, j - start);
                    assert(spec_digits_value(body) >= acc > 0x8000_0000);
                    assert(spec_parse_i32_body(neg, body) is None);
                } else {
                    assert(exists|q: int| 0 <= q < body.len() && !spec_is_ascii_digit(body[q]));
                    assert(spec_parse_i32_body(neg, body) is None);
                }
            }
            return None;
        }
    }
    proof {
        assert(body.take(n - start) =~= body);
    }
    if neg {
        if acc > 0x8000_0000 {
            return None;
        }
        Some((-acc) as i32)
    } else {
        if acc > 0x7fff_ffff {
            return None;
        }
        Some(acc as i32)
    }
}

/// Joins the parts with the separator.
#[verifier::loop_isolation(false)]
pub fn join_with(parts: &Vec<String>, sep: &str) -> (r: String)
    ensures
        r@ == spec_join(str_views(parts@), sep@),
{
    let mut r = String::new();
    let n = parts.len();
    let mut i: usize = 0;
    proof {
        assert(str_views(parts@).take(0) =~= str_views(parts@.take(0)));
    }
    while i < n
        invariant
            i <= n,
            r@ == spec_join(str_views(parts@.take(i as int)), sep@),
        decreases n - i,
    {
        proof {
            assert(str_views(parts@.take(i as int + 1)).drop_last() =~= str_views(
                parts@.take(i as int),
            ));
            assert(str_views(parts@.take(i as int + 1)).last() == parts@[i as int]@);
        }
        if i > 0 {
            r.append(sep);
        }
        r.append(parts[i].as_str());
        i = i + 1;
    }
    proof {
        assert(str_views(parts@.take(n as int)) =~= str_views(parts@));
    }
    r
}

} // verus!
