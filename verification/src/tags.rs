//! Freeform key/value tag lists attached to authorization assertions.
//!
//! A tag is an ordered list of strings; the first entry is the key.  The
//! accessors here are soft-failing: a missing or malformed optional tag is
//! simply absent.

use vstd::prelude::*;

verus! {

/// A tag carries a value for `key` when it has at least two entries and its
/// first entry is the key.
pub open spec fn tag_match(t: Seq<Seq<char>>, key: Seq<char>) -> bool {
    t.len() >= 2 && t[0] == key
}

/// The value of the first tag that carries one for `key`.
pub open spec fn tag_value(tags: Seq<Seq<Seq<char>>>, key: Seq<char>) -> Option<Seq<char>>
    decreases tags.len(),
{
    if tags.len() == 0 {
        None
    } else if tag_match(tags[0], key) {
        Some(tags[0][1])
    } else {
        tag_value(tags.drop_first(), key)
    }
}

proof fn lemma_tag_value_at(tags: Seq<Seq<Seq<char>>>, key: Seq<char>, i: int)
    requires
        0 <= i < tags.len(),
        forall|j: int| 0 <= j < i ==> !tag_match(#[trigger] tags[j], key),
        tag_match(tags[i], key),
    ensures
        tag_value(tags, key) == Some(tags[i][1]),
    decreases i,
{
    if i > 0 {
        assert(!tag_match(tags[0], key));
        assert(forall|j: int|
            0 <= j < i - 1 ==> !tag_match(#[trigger] tags.drop_first()[j], key)) by {
            assert(forall|j: int| 0 <= j < i - 1 ==> tags.drop_first()[j] == #[trigger] tags[j
                + 1]);
        }
        lemma_tag_value_at(tags.drop_first(), key, i - 1);
    }
}

proof fn lemma_tag_value_none(tags: Seq<Seq<Seq<char>>>, key: Seq<char>)
    requires
        forall|j: int| 0 <= j < tags.len() ==> !tag_match(#[trigger] tags[j], key),
    ensures
        tag_value(tags, key) is None,
    decreases tags.len(),
{
    if tags.len() > 0 {
        assert(forall|j: int|
            0 <= j < tags.len() - 1 ==> !tag_match(#[trigger] tags.drop_first()[j], key)) by {
            assert(forall|j: int|
                0 <= j < tags.len() - 1 ==> tags.drop_first()[j] == #[trigger] tags[j + 1]);
        }
        lemma_tag_value_none(tags.drop_first(), key);
    }
}

/// Find the value of the first tag keyed by `key`, if any.
pub fn find_tag_value(tags: &Vec<Vec<String>>, key: &str) -> (r: Option<String>)
    ensures
        r matches Some(v) ==> tag_value(tags.deep_view(), key@) == Some(v@),
        r is None ==> tag_value(tags.deep_view(), key@) is None,
{
    let k = key.to_owned();
    let mut i: usize = 0;
    while i < tags.len()
        invariant
            k@ == key@,
            i <= tags.len(),
            forall|j: int| 0 <= j < i ==> !tag_match(#[trigger] tags.deep_view()[j], key@),
        decreases tags.len() - i,
    {
        let t = &tags[i];
        proof {
            assert(tags.deep_view()[i as int] == tags@[i as int].deep_view());
            assert(tags.deep_view()[i as int].len() == t@.len());
        }
        if t.len() >= 2 && t[0] == k {
            proof {
                assert(tags.deep_view()[i as int][0] == t@[0]@);
                assert(tags.deep_view()[i as int][1] == t@[1]@);
                lemma_tag_value_at(tags.deep_view(), key@, i as int);
            }
            return Some(t[1].clone());
        }
        proof {
            if t@.len() >= 2 {
                assert(tags.deep_view()[i as int][0] == t@[0]@);
            }
        }
        i = i + 1;
    }
    proof {
        lemma_tag_value_none(tags.deep_view(), key@);
    }
    None
}

/// All characters are decimal digits, and there is at least one.
pub open spec fn is_dec_digits(s: Seq<char>) -> bool {
    s.len() > 0 && forall|i: int| 0 <= i < s.len() ==> '0' <= #[trigger] s[i] <= '9'
}

/// The numeric value of a digit string.
pub open spec fn dec_value(s: Seq<char>) -> int
    decreases s.len(),
{
    if s.len() == 0 {
        0
    } else {
        10 * dec_value(s.drop_last()) + ((s.last() as u32) - 48)
    }
}

/// A decimal number: all digits, and the value fits in 64 bits.
pub open spec fn parse_dec(s: Seq<char>) -> Option<u64> {
    if is_dec_digits(s) && dec_value(s) <= u64::MAX as int {
        Some(dec_value(s) as u64)
    } else {
        None
    }
}

proof fn lemma_dec_value_nonneg(s: Seq<char>)
    requires
        forall|i: int| 0 <= i < s.len() ==> '0' <= #[trigger] s[i] <= '9',
    ensures
        dec_value(s) >= 0,
    decreases s.len(),
{
    if s.len() > 0 {
        lemma_dec_value_nonneg(s.drop_last());
    }
}

proof fn lemma_dec_prefix_le(s: Seq<char>, k: int)
    requires
        forall|i: int| 0 <= i < s.len() ==> '0' <= #[trigger] s[i] <= '9',
        0 <= k <= s.len(),
    ensures
        dec_value(s.subrange(0, k)) <= dec_value(s),
    decreases s.len(),
{
    if k == s.len() {
        assert(s.subrange(0, k) =~= s);
    } else {
        assert(s.drop_last().subrange(0, k) =~= s.subrange(0, k));
        lemma_dec_prefix_le(s.drop_last(), k);
        lemma_dec_value_nonneg(s.drop_last());
    }
}

/// Parse a decimal number, rejecting anything that is not all digits or
/// does not fit in 64 bits.
pub fn parse_dec_str(s: &str) -> (r: Option<u64>)
    ensures
        r == parse_dec(s@),
{
    let n = s.unicode_len();
    if n == 0 {
        return None;
    }
    let mut val: u64 = 0;
    let mut i: usize = 0;
    while i < n
        invariant
            n == s@.len(),
            i <= n,
            forall|j: int| 0 <= j < i ==> '0' <= #[trigger] s@[j] <= '9',
            val == dec_value(s@.subrange(0, i as int)),
        decreases n - i,
    {
        let c = s.get_char(i);
        if c < '0' || c > '9' {
            return None;
        }
        let d: u64 = ((c as u8) - 48) as u64;
        proof {
            assert(s@.subrange(0, i + 1).drop_last() =~= s@.subrange(0, i as int));
            assert(s@.subrange(0, i + 1).last() == s@[i as int]);
        }
        let next = match val.checked_mul(10) {
            Some(v10) => match v10.checked_add(d) {
                Some(v) => v,
                None => {
                    proof {
                        if is_dec_digits(s@) {
                            lemma_dec_prefix_le(s@, i + 1);
                        }
                    }
                    return None;
                },
            },
            None => {
                proof {
                    if is_dec_digits(s@) {
                        lemma_dec_prefix_le(s@, i + 1);
                    }
                }
                return None;
            },
        };
        val = next;
        i = i + 1;
    }
    proof {
        assert(s@.subrange(0, n as int) =~= s@);
    }
    Some(val)
}

/// ASCII lowercase folding of one character.
pub open spec fn lower_char(c: char) -> char {
    if 'A' <= c && c <= 'Z' {
        ((((c as u8) + 32) as u8) as char)
    } else {
        c
    }
}

/// Equal up to ASCII case.
pub open spec fn eq_icase(a: Seq<char>, b: Seq<char>) -> bool {
    a.len() == b.len() && forall|i: int|
        0 <= i < a.len() ==> lower_char(#[trigger] a[i]) == lower_char(b[i])
}

/// Compare two strings ignoring ASCII case.
pub fn eq_ignore_case(a: &str, b: &str) -> (r: bool)
    ensures
        r == eq_icase(a@, b@),
{
    let na = a.unicode_len();
    let nb = b.unicode_len();
    if na != nb {
        return false;
    }
    let mut i: usize = 0;
    while i < na
        invariant
            na == a@.len(),
            nb == b@.len(),
            na == nb,
            i <= na,
            forall|j: int| 0 <= j < i ==> lower_char(#[trigger] a@[j]) == lower_char(b@[j]),
        decreases na - i,
    {
        let ca = a.get_char(i);
        let cb = b.get_char(i);
        let la = if 'A' <= ca && ca <= 'Z' {
            (((ca as u8) + 32) as char)
        } else {
            ca
        };
        let lb = if 'A' <= cb && cb <= 'Z' {
            (((cb as u8) + 32) as char)
        } else {
            cb
        };
        if la != lb {
            return false;
        }
        i = i + 1;
    }
    true
}

/// A tag keyed `method` or `t` names the operation the assertion allows.
pub open spec fn method_tag_match(t: Seq<Seq<char>>) -> bool {
    t.len() >= 2 && (t[0] == "method"@ || t[0] == "t"@)
}

/// The operation named by the first method tag, if any.
pub open spec fn method_tag_value(tags: Seq<Seq<Seq<char>>>) -> Option<Seq<char>>
    decreases tags.len(),
{
    if tags.len() == 0 {
        None
    } else if (method_tag_match(tags[0])) {
        Some(tags[0][1])
    } else {
        method_tag_value(tags.drop_first())
    }
}

/// The assertion names the given operation, up to ASCII case.  Absence of a
/// method tag never matches.
pub open spec fn method_matches(tags: Seq<Seq<Seq<char>>>, method: Seq<char>) -> bool {
    match method_tag_value(tags) {
        Some(v) => eq_icase(v, method),
        None => false,
    }
}

proof fn lemma_method_tag_at(tags: Seq<Seq<Seq<char>>>, i: int)
    requires
        0 <= i < tags.len(),
        forall|j: int| 0 <= j < i ==> !method_tag_match(#[trigger] tags[j]),
        method_tag_match(tags[i]),
    ensures
        method_tag_value(tags) == Some(tags[i][1]),
    decreases i,
{
    if i > 0 {
        assert(forall|j: int| 0 <= j < i - 1 ==> !method_tag_match(
            #[trigger] tags.drop_first()[j],
        )) by {
            assert(forall|j: int| 0 <= j < i - 1 ==> tags.drop_first()[j] == #[trigger] tags[j
                + 1]);
        }
        lemma_method_tag_at(tags.drop_first(), i - 1);
    }
}

proof fn lemma_method_tag_none(tags: Seq<Seq<Seq<char>>>)
    requires
        forall|j: int| 0 <= j < tags.len() ==> !method_tag_match(#[trigger] tags[j]),
    ensures
        method_tag_value(tags) is None,
    decreases tags.len(),
{
    if tags.len() > 0 {
        assert(forall|j: int| 0 <= j < tags.len() - 1 ==> !method_tag_match(
            #[trigger] tags.drop_first()[j],
        )) by {
            assert(forall|j: int|
                0 <= j < tags.len() - 1 ==> tags.drop_first()[j] == #[trigger] tags[j + 1]);
        }
        lemma_method_tag_none(tags.drop_first());
    }
}

/// Does the assertion's method tag name this operation (ignoring ASCII
/// case)?
pub fn check_method(tags: &Vec<Vec<String>>, method: &str) -> (r: bool)
    ensures
        r == method_matches(tags.deep_view(), method@),
{
    let key_method = String::from_str("method");
    let key_t = String::from_str("t");
    let mut i: usize = 0;
    while i < tags.len()
        invariant
            key_method@ == "method"@,
            key_t@ == "t"@,
            i <= tags.len(),
            forall|j: int| 0 <= j < i ==> !method_tag_match(#[trigger] tags.deep_view()[j]),
        decreases tags.len() - i,
    {
        let t = &tags[i];
        proof {
            assert(tags.deep_view()[i as int] == tags@[i as int].deep_view());
            assert(tags.deep_view()[i as int].len() == t@.len());
        }
        if t.len() >= 2 && (t[0] == key_method || t[0] == key_t) {
            proof {
                assert(tags.deep_view()[i as int][0] == t@[0]@);
                assert(tags.deep_view()[i as int][1] == t@[1]@);
                lemma_method_tag_at(tags.deep_view(), i as int);
            }
            return eq_ignore_case(t[1].as_str(), method);
        }
        proof {
            if t@.len() >= 2 {
                assert(tags.deep_view()[i as int][0] == t@[0]@);
            }
        }
        i = i + 1;
    }
    proof {
        lemma_method_tag_none(tags.deep_view());
    }
    false
}

/// The expiration instant the assertion declares: the value of its
/// `expiration` tag read as a decimal timestamp.  A missing or malformed
/// tag declares none.
pub open spec fn expiration_of(tags: Seq<Seq<Seq<char>>>) -> Option<u64> {
    match tag_value(tags, "expiration"@) {
        Some(v) => parse_dec(v),
        None => None,
    }
}

/// Read the expiration tag, if one is present and well formed.
pub fn find_expiration(tags: &Vec<Vec<String>>) -> (r: Option<u64>)
    ensures
        r == expiration_of(tags.deep_view()),
{
    match find_tag_value(tags, "expiration") {
        Some(v) => parse_dec_str(v.as_str()),
        None => None,
    }
}

} // verus!
