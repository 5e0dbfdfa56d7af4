//! Credential validation: the email grammar and the password policy.
//!
//! The email shape is the classic `local@domain` pattern: the local part is
//! word/hyphen segments separated by single dots, the domain is one or more
//! labels each ending in a dot, closed by an alphabetic top-level segment of
//! two to seven letters. The specification below states that grammar directly
//! over `Seq<char>`; the executable checkers are proved equivalent to it.

use vstd::prelude::*;

use crate::errors::InputFault;

verus! {

/// ASCII word character: letter, digit or underscore.
pub open spec fn is_word_char(c: char) -> bool {
    ('a' <= c && c <= 'z') || ('A' <= c && c <= 'Z') || ('0' <= c && c <= '9') || c == '_'
}

/// Character allowed in an email segment: word character or hyphen.
pub open spec fn is_atom_char(c: char) -> bool {
    is_word_char(c) || c == '-'
}

/// ASCII letter.
pub open spec fn is_alpha_char(c: char) -> bool {
    ('a' <= c && c <= 'z') || ('A' <= c && c <= 'Z')
}

/// ASCII decimal digit.
pub open spec fn is_digit_char(c: char) -> bool {
    '0' <= c && c <= '9'
}

/// ASCII punctuation: the four printable non-alphanumeric bands.
pub open spec fn is_punct_char(c: char) -> bool {
    ('!' <= c && c <= '/') || (':' <= c && c <= '@') || ('[' <= c && c <= '`') || ('{' <= c
        && c <= '~')
}

/// ASCII letter or digit.
pub open spec fn is_alnum_char(c: char) -> bool {
    is_alpha_char(c) || is_digit_char(c)
}

/// Every character is an atom character or a dot.
pub open spec fn all_atom_or_dot(s: Seq<char>) -> bool {
    forall|i: int| 0 <= i < s.len() ==> is_atom_char(#[trigger] s[i]) || s[i] == '.'
}

/// No two adjacent dots.
pub open spec fn no_dot_pair(s: Seq<char>) -> bool {
    forall|i: int| 0 <= i && i + 1 < s.len() ==> !((#[trigger] s[i]) == '.' && s[i + 1] == '.')
}

/// The local part of an email: non-empty atom segments separated by single
/// dots, neither starting nor ending with a dot.
pub open spec fn valid_local(s: Seq<char>) -> bool {
    &&& s.len() > 0
    &&& all_atom_or_dot(s)
    &&& no_dot_pair(s)
    &&& s[0] != '.'
    &&& s[s.len() - 1] != '.'
}

/// One or more domain labels, each a non-empty atom segment closed by a dot.
pub open spec fn valid_labels(s: Seq<char>) -> bool {
    &&& s.len() >= 2
    &&& all_atom_or_dot(s)
    &&& no_dot_pair(s)
    &&& s[0] != '.'
    &&& s[s.len() - 1] == '.'
}

/// Top-level segment: two to seven letters.
pub open spec fn valid_tld(s: Seq<char>) -> bool {
    &&& 2 <= s.len() <= 7
    &&& forall|i: int| 0 <= i < s.len() ==> is_alpha_char(#[trigger] s[i])
}

/// Index of the last dot of `s`, if any.
pub open spec fn spec_last_dot(s: Seq<char>) -> Option<int>
    decreases s.len(),
{
    if s.len() == 0 {
        None
    } else if s[s.len() - 1] == '.' {
        Some(s.len() - 1)
    } else {
        spec_last_dot(s.drop_last())
    }
}

/// The domain of an email: labels up to and through the last dot, then a
/// valid top-level segment.
pub open spec fn valid_domain(s: Seq<char>) -> bool {
    match spec_last_dot(s) {
        None => false,
        Some(d) => valid_labels(s.subrange(0, d + 1)) && valid_tld(
            s.subrange(d + 1, s.len() as int),
        ),
    }
}

/// Index of the first `@` of `s`, if any.
pub open spec fn spec_first_at(s: Seq<char>) -> Option<int>
    decreases s.len(),
{
    if s.len() == 0 {
        None
    } else if s[0] == '@' {
        Some(0int)
    } else {
        match spec_first_at(s.drop_first()) {
            None => None,
            Some(i) => Some(i + 1),
        }
    }
}

/// The whole email grammar: a valid local part, the first `@`, and a valid
/// domain. A valid local part holds no `@`, so a match can only split there.
pub open spec fn valid_email(s: Seq<char>) -> bool {
    match spec_first_at(s) {
        None => false,
        Some(a) => valid_local(s.subrange(0, a)) && valid_domain(s.subrange(a + 1, s.len() as int)),
    }
}

/// The fault an email input is rejected with, if any: required first, then shape.
pub open spec fn spec_email_error(s: Seq<char>) -> Option<InputFault> {
    if s.len() == 0 {
        Some(InputFault::EmailRequired)
    } else if !valid_email(s) {
        Some(InputFault::EmailFormat)
    } else {
        None
    }
}

/// The password holds at least one decimal digit.
pub open spec fn has_digit(s: Seq<char>) -> bool {
    exists|i: int| 0 <= i < s.len() && is_digit_char(#[trigger] s[i])
}

/// The password holds at least one punctuation character.
pub open spec fn has_punct(s: Seq<char>) -> bool {
    exists|i: int| 0 <= i < s.len() && is_punct_char(#[trigger] s[i])
}

/// The fault a password input is rejected with, if any: required, then
/// length, then digit, then punctuation.
pub open spec fn spec_password_error(s: Seq<char>) -> Option<InputFault> {
    if s.len() == 0 {
        Some(InputFault::PasswordRequired)
    } else if s.len() < 6 {
        Some(InputFault::PasswordTooShort)
    } else if !has_digit(s) {
        Some(InputFault::PasswordNeedsDigit)
    } else if !has_punct(s) {
        Some(InputFault::PasswordNeedsPunct)
    } else {
        None
    }
}

/// A password the policy accepts.
pub open spec fn valid_password(s: Seq<char>) -> bool {
    spec_password_error(s) is None
}

/// The characters of `s`, one by one.
pub fn chars_of(s: &str) -> (v: Vec<char>)
    ensures
        v@ == s@,
{
    let n = s.unicode_len();
    let mut v: Vec<char> = Vec::new();
    let mut i: usize = 0;
    while i < n
        invariant
            n == s@.len(),
            i <= n,
            v@ == s@.subrange(0, i as int),
        decreases n - i,
    {
        let c = s.get_char(i);
        v.push(c);
        proof {
            assert(v@ =~= s@.subrange(0, i + 1));
        }
        i += 1;
    }
    proof {
        assert(v@ =~= s@);
    }
    v
}

/// Whether `c` is a word character.
pub fn word_char(c: char) -> (b: bool)
    ensures
        b == is_word_char(c),
{
    ('a' <= c && c <= 'z') || ('A' <= c && c <= 'Z') || ('0' <= c && c <= '9') || c == '_'
}

/// Whether `c` is an atom character.
pub fn atom_char(c: char) -> (b: bool)
    ensures
        b == is_atom_char(c),
{
    word_char(c) || c == '-'
}

/// Whether `c` is a letter.
pub fn alpha_char(c: char) -> (b: bool)
    ensures
        b == is_alpha_char(c),
{
    ('a' <= c && c <= 'z') || ('A' <= c && c <= 'Z')
}

/// Whether `c` is a decimal digit.
pub fn digit_char(c: char) -> (b: bool)
    ensures
        b == is_digit_char(c),
{
    '0' <= c && c <= '9'
}

/// Whether `c` is ASCII punctuation.
pub fn punct_char(c: char) -> (b: bool)
    ensures
        b == is_punct_char(c),
{
    ('!' <= c && c <= '/') || (':' <= c && c <= '@') || ('[' <= c && c <= '`') || ('{' <= c
        && c <= '~')
}

/// Scans `v[from..to]` for atom/dot characters and adjacent dots.
fn check_span_atoms(v: &Vec<char>, from: usize, to: usize) -> (b: bool)
    requires
        from <= to <= v@.len(),
    ensures
        b == (all_atom_or_dot(v@.subrange(from as int, to as int)) && no_dot_pair(
            v@.subrange(from as int, to as int),
        )),
{
    let ghost sub = v@.subrange(from as int, to as int);
    let mut i: usize = from;
    while i < to
        invariant
            from <= i <= to <= v@.len(),
            sub == v@.subrange(from as int, to as int),
            forall|k: int| 0 <= k < i - from ==> is_atom_char(#[trigger] sub[k]) || sub[k] == '.',
            forall|k: int| 0 <= k && k + 1 < i - from ==> !((#[trigger] sub[k]) == '.' && sub[k + 1] == '.'),
        decreases to - i,
    {
        let c = v[i];
        proof {
            assert(sub[i - from] == c);
        }
        if !(atom_char(c) || c == '.') {
            proof {
                assert(!all_atom_or_dot(sub));
            }
            return false;
        }
        if i > from && c == '.' {
            let prev = v[i - 1];
            proof {
                assert(sub[i - from - 1] == prev);
            }
            if prev == '.' {
                proof {
                    assert(!no_dot_pair(sub));
                }
                return false;
            }
        }
        i += 1;
    }
    true
}

/// Checks the local part `v[0..to]`.
fn check_local(v: &Vec<char>, to: usize) -> (b: bool)
    requires
        to <= v@.len(),
    ensures
        b == valid_local(v@.subrange(0, to as int)),
{
    let ghost sub = v@.subrange(0, to as int);
    if to == 0 {
        return false;
    }
    if !check_span_atoms(v, 0, to) {
        return false;
    }
    proof {
        assert(sub[0] == v@[0]);
        assert(sub[to - 1] == v@[to - 1]);
    }
    v[0] != '.' && v[to - 1] != '.'
}

/// Checks the label run `v[from..to]`.
fn check_labels(v: &Vec<char>, from: usize, to: usize) -> (b: bool)
    requires
        from <= to <= v@.len(),
    ensures
        b == valid_labels(v@.subrange(from as int, to as int)),
{
    let ghost sub = v@.subrange(from as int, to as int);
    if to - from < 2 {
        return false;
    }
    if !check_span_atoms(v, from, to) {
        return false;
    }
    proof {
        assert(sub[0] == v@[from as int]);
        assert(sub[sub.len() - 1] == v@[to - 1]);
    }
    v[from] != '.' && v[to - 1] == '.'
}

/// Checks the top-level segment `v[from..to]`.
fn check_tld(v: &Vec<char>, from: usize, to: usize) -> (b: bool)
    requires
        from <= to <= v@.len(),
    ensures
        b == valid_tld(v@.subrange(from as int, to as int)),
{
    let ghost sub = v@.subrange(from as int, to as int);
    if to - from < 2 || to - from > 7 {
        return false;
    }
    let mut i: usize = from;
    while i < to
        invariant
            from <= i <= to <= v@.len(),
            sub == v@.subrange(from as int, to as int),
            forall|k: int| 0 <= k < i - from ==> is_alpha_char(#[trigger] sub[k]),
        decreases to - i,
    {
        let c = v[i];
        proof {
            assert(sub[i - from] == c);
        }
        if !alpha_char(c) {
            proof {
                assert(!valid_tld(sub));
            }
            return false;
        }
        i += 1;
    }
    true
}

/// Index of the first `@` in `v`, scanning forward.
fn find_first_at(v: &Vec<char>) -> (r: Option<usize>)
    ensures
        match r {
            Some(a) => a < v@.len() && v@[a as int] == '@' && (forall|k: int|
                0 <= k < a ==> (#[trigger] v@[k]) != '@'),
            None => forall|k: int| 0 <= k < v@.len() ==> (#[trigger] v@[k]) != '@',
        },
{
    let n = v.len();
    let mut i: usize = 0;
    while i < n
        invariant
            i <= n == v@.len(),
            forall|k: int| 0 <= k < i ==> (#[trigger] v@[k]) != '@',
        decreases n - i,
    {
        if v[i] == '@' {
            return Some(i);
        }
        i += 1;
    }
    None
}

/// Index of the last dot in `v[from..to]`, scanning backward.
fn find_last_dot(v: &Vec<char>, from: usize, to: usize) -> (r: Option<usize>)
    requires
        from <= to <= v@.len(),
    ensures
        match r {
            Some(d) => from <= d < to && v@[d as int] == '.' && (forall|j: int|
                d < j < to ==> (#[trigger] v@[j]) != '.'),
            None => forall|j: int| from <= j < to ==> (#[trigger] v@[j]) != '.',
        },
{
    let mut i: usize = to;
    while i > from
        invariant
            from <= i <= to <= v@.len(),
            forall|j: int| i <= j < to ==> (#[trigger] v@[j]) != '.',
        decreases i,
    {
        i = i - 1;
        if v[i] == '.' {
            return Some(i);
        }
    }
    None
}

/// No `@` anywhere means no first `@`.
proof fn lemma_first_at_none(s: Seq<char>)
    requires
        forall|k: int| 0 <= k < s.len() ==> (#[trigger] s[k]) != '@',
    ensures
        spec_first_at(s) is None,
    decreases s.len(),
{
    if s.len() > 0 {
        assert forall|k: int| 0 <= k < s.drop_first().len() implies (#[trigger] s.drop_first()[k])
            != '@' by {
            assert(s.drop_first()[k] == s[k + 1]);
        }
        lemma_first_at_none(s.drop_first());
    }
}

/// An `@` at `a` with none before it is the first `@`.
proof fn lemma_first_at_some(s: Seq<char>, a: int)
    requires
        0 <= a < s.len(),
        s[a] == '@',
        forall|k: int| 0 <= k < a ==> (#[trigger] s[k]) != '@',
    ensures
        spec_first_at(s) == Some(a),
    decreases s.len(),
{
    if a > 0 {
        assert forall|k: int| 0 <= k < a - 1 implies (#[trigger] s.drop_first()[k]) != '@' by {
            assert(s.drop_first()[k] == s[k + 1]);
        }
        assert(s.drop_first()[a - 1] == s[a]);
        lemma_first_at_some(s.drop_first(), a - 1);
    }
}

/// No dot anywhere means no last dot.
proof fn lemma_last_dot_none(s: Seq<char>)
    requires
        forall|j: int| 0 <= j < s.len() ==> (#[trigger] s[j]) != '.',
    ensures
        spec_last_dot(s) is None,
    decreases s.len(),
{
    if s.len() > 0 {
        assert forall|j: int| 0 <= j < s.drop_last().len() implies (#[trigger] s.drop_last()[j])
            != '.' by {
            assert(s.drop_last()[j] == s[j]);
        }
        lemma_last_dot_none(s.drop_last());
    }
}

/// A dot at `d` with none after it is the last dot.
proof fn lemma_last_dot_some(s: Seq<char>, d: int)
    requires
        0 <= d < s.len(),
        s[d] == '.',
        forall|j: int| d < j < s.len() ==> (#[trigger] s[j]) != '.',
    ensures
        spec_last_dot(s) == Some(d),
    decreases s.len(),
{
    if d < s.len() - 1 {
        assert(s[s.len() - 1] != '.');
        assert forall|j: int| d < j < s.drop_last().len() implies (#[trigger] s.drop_last()[j])
            != '.' by {
            assert(s.drop_last()[j] == s[j]);
        }
        assert(s.drop_last()[d] == s[d]);
        lemma_last_dot_some(s.drop_last(), d);
    }
}

/// Checks the domain `v[from..]`.
fn check_domain(v: &Vec<char>, from: usize) -> (b: bool)
    requires
        from <= v@.len(),
    ensures
        b == valid_domain(v@.subrange(from as int, v@.len() as int)),
{
    let n = v.len();
    let ghost sub = v@.subrange(from as int, n as int);
    match find_last_dot(v, from, n) {
        None => {
            proof {
                assert forall|j: int| 0 <= j < sub.len() implies (#[trigger] sub[j]) != '.' by {
                    assert(sub[j] == v@[from + j]);
                }
                lemma_last_dot_none(sub);
            }
            false
        },
        Some(d) => {
            let labels_ok = check_labels(v, from, d + 1);
            let tld_ok = check_tld(v, d + 1, n);
            proof {
                let dd = d - from;
                assert(sub[dd] == v@[d as int]);
                assert forall|j: int| dd < j < sub.len() implies (#[trigger] sub[j]) != '.' by {
                    assert(sub[j] == v@[from + j]);
                }
                lemma_last_dot_some(sub, dd);
                assert(sub.subrange(0, dd + 1) =~= v@.subrange(from as int, d + 1));
                assert(sub.subrange(dd + 1, sub.len() as int) =~= v@.subrange(d + 1, n as int));
            }
            labels_ok && tld_ok
        },
    }
}

/// The fault the submitted email is rejected with, or `None` if it is valid.
pub fn email_fault(s: &str) -> (r: Option<InputFault>)
    ensures
        r == spec_email_error(s@),
{
    let v = chars_of(s);
    let n = v.len();
    if n == 0 {
        return Some(InputFault::EmailRequired);
    }
    match find_first_at(&v) {
        None => {
            proof {
                lemma_first_at_none(v@);
            }
            Some(InputFault::EmailFormat)
        },
        Some(a) => {
            let local_ok = check_local(&v, a);
            let domain_ok = check_domain(&v, a + 1);
            proof {
                lemma_first_at_some(v@, a as int);
            }
            if local_ok && domain_ok {
                None
            } else {
                Some(InputFault::EmailFormat)
            }
        },
    }
}

/// Whether `v` holds a decimal digit.
fn scan_digit(v: &Vec<char>) -> (b: bool)
    ensures
        b == has_digit(v@),
{
    let n = v.len();
    let mut i: usize = 0;
    while i < n
        invariant
            i <= n == v@.len(),
            forall|k: int| 0 <= k < i ==> !is_digit_char(#[trigger] v@[k]),
        decreases n - i,
    {
        if digit_char(v[i]) {
            return true;
        }
        i += 1;
    }
    false
}

/// Whether `v` holds a punctuation character.
fn scan_punct(v: &Vec<char>) -> (b: bool)
    ensures
        b == has_punct(v@),
{
    let n = v.len();
    let mut i: usize = 0;
    while i < n
        invariant
            i <= n == v@.len(),
            forall|k: int| 0 <= k < i ==> !is_punct_char(#[trigger] v@[k]),
        decreases n - i,
    {
        if punct_char(v[i]) {
            return true;
        }
        i += 1;
    }
    false
}

/// The fault the submitted password is rejected with, or `None` if the policy
/// accepts it.
pub fn password_fault(s: &str) -> (r: Option<InputFault>)
    ensures
        r == spec_password_error(s@),
{
    let v = chars_of(s);
    let n = v.len();
    if n == 0 {
        return Some(InputFault::PasswordRequired);
    }
    if n < 6 {
        return Some(InputFault::PasswordTooShort);
    }
    if !scan_digit(&v) {
        return Some(InputFault::PasswordNeedsDigit);
    }
    if !scan_punct(&v) {
        return Some(InputFault::PasswordNeedsPunct);
    }
    None
}

} // verus!
