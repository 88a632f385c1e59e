//! Character-level helpers on strings: the pieces from which broker topics
//! and payload fields are built.

use vstd::prelude::*;
use vstd::string::*;

verus! {

broadcast use vstd::string::group_string_axioms;

/// Appends one character to a string.
///
/// Trusted: calls `String::push`, which std documents as appending the given
/// `char` to the end of the string; nothing else is claimed.
#[verifier::external_body]
pub(crate) fn push_char(s: &mut String, c: char)
    ensures
        final(s)@ == old(s)@.push(c),
{
    s.push(c);
}

/// Whether two strings hold the same characters.
pub fn str_equals(a: &str, b: &str) -> (r: bool)
    ensures
        r == (a@ == b@),
{
    let n = a.unicode_len();
    let m = b.unicode_len();
    if n != m {
        return false;
    }
    let mut i: usize = 0;
    while i < n
        invariant
            n == a@.len(),
            n == b@.len(),
            i <= n,
            forall|j: int| 0 <= j < i ==> a@[j] == b@[j],
        decreases n - i,
    {
        if a.get_char(i) != b.get_char(i) {
            return false;
        }
        i = i + 1;
    }
    assert(a@ =~= b@);
    true
}

/// `s` with every occurrence of `from` replaced by `to`.
pub open spec fn replace_char_spec(s: Seq<char>, from: char, to: char) -> Seq<char> {
    s.map_values(|c: char| if c == from { to } else { c })
}

/// Replaces every occurrence of `from` in `s` by `to`.
pub fn replace_char(s: &str, from: char, to: char) -> (r: String)
    ensures
        r@ == replace_char_spec(s@, from, to),
        r@.len() == s@.len(),
        forall|i: int| 0 <= i < s@.len() ==> (s@[i] == from ==> r@[i] == to) && (s@[i] != from ==> r@[i] == s@[i]),
{
    proof {
        lemma_replace_char_pointwise(s@, from, to);
    }
    let mut r = String::new();
    let n = s.unicode_len();
    let mut i: usize = 0;
    while i < n
        invariant
            n == s@.len(),
            i <= n,
            r@ == replace_char_spec(s@.take(i as int), from, to),
        decreases n - i,
    {
        let c = s.get_char(i);
        let d = if c == from {
            to
        } else {
            c
        };
        push_char(&mut r, d);
        assert(s@.take(i as int + 1) == s@.take(i as int).push(c));
        i = i + 1;
    }
    assert(s@.take(n as int) == s@);
    r
}

/// Replacing `from` by `to` changes exactly the characters equal to `from`,
/// each into `to`, and keeps every other character in its place.
pub proof fn lemma_replace_char_pointwise(s: Seq<char>, from: char, to: char)
    ensures
        replace_char_spec(s, from, to).len() == s.len(),
        forall|i: int|
            0 <= i < s.len() ==> (s[i] == from ==> #[trigger] replace_char_spec(s, from, to)[i]
                == to) && (s[i] != from ==> replace_char_spec(s, from, to)[i] == s[i]),
{
}

/// After a replacement of `from` by a different character, `from` no longer occurs.
pub proof fn lemma_replace_char_removes(s: Seq<char>, from: char, to: char)
    requires
        from != to,
    ensures
        !replace_char_spec(s, from, to).contains(from),
        replace_char_spec(s, from, to).len() == s.len(),
{
    let r = replace_char_spec(s, from, to);
    assert forall|i: int| 0 <= i < r.len() implies r[i] != from by {}
}

/// Whether a path component is absolute, that is, starts with the separator `/`.
pub open spec fn is_absolute_path(p: Seq<char>) -> bool {
    p.len() > 0 && p[0] == '/'
}

/// The path `base` extended by `component`, the way `std::path::Path::join`
/// behaves on Unix: an absolute component replaces the base; otherwise a
/// separator `/` is put between the two unless the base is empty or already
/// ends with one.
pub open spec fn join_path_spec(base: Seq<char>, component: Seq<char>) -> Seq<char> {
    if is_absolute_path(component) {
        component
    } else if base.len() > 0 && base.last() != '/' {
        base.push('/') + component
    } else {
        base + component
    }
}

/// Extends the path `base` by `component` (see [`join_path_spec`]).
pub fn join_path(base: &str, component: &str) -> (r: String)
    ensures
        r@ == join_path_spec(base@, component@),
{
    let cn = component.unicode_len();
    if cn > 0 && component.get_char(0) == '/' {
        return component.to_string();
    }
    let mut r = base.to_string();
    let bn = base.unicode_len();
    if bn > 0 && base.get_char(bn - 1) != '/' {
        push_char(&mut r, '/');
    }
    r.append(component);
    r
}

/// Joining a relative component keeps the base as a prefix of the path.
pub proof fn lemma_join_keeps_base(base: Seq<char>, component: Seq<char>)
    requires
        !is_absolute_path(component),
    ensures
        join_path_spec(base, component).len() >= base.len(),
        join_path_spec(base, component).take(base.len() as int) == base,
        is_absolute_path(base) ==> is_absolute_path(join_path_spec(base, component)),
{
    let r = join_path_spec(base, component);
    assert(r.take(base.len() as int) =~= base);
}

/// A joined path always ends with the component; a relative component is
/// put after the base, with one `/` between them unless the base is empty or
/// already ends with `/`; an absolute component is the whole result.
pub proof fn lemma_join_path_shape(base: Seq<char>, component: Seq<char>)
    ensures
        ({
            let j = join_path_spec(base, component);
            &&& j.len() >= component.len()
            &&& j.subrange(j.len() - component.len(), j.len() as int) == component
            &&& is_absolute_path(component) ==> j == component
            &&& !is_absolute_path(component) && base.len() > 0 && base[base.len() - 1] != '/'
                ==> j == base + seq!['/'] + component
            &&& !is_absolute_path(component) && (base.len() == 0 || base[base.len() - 1] == '/')
                ==> j == base + component
        }),
{
    let j = join_path_spec(base, component);
    assert(j.subrange(j.len() - component.len(), j.len() as int) =~= component);
    if !is_absolute_path(component) && base.len() > 0 && base[base.len() - 1] != '/' {
        assert(j =~= base + seq!['/'] + component);
    }
}

/// The lowercase hexadecimal digit for a value below sixteen.
pub open spec fn hex_digit(n: int) -> char {
    if n < 10 {
        (48 + n) as char
    } else {
        (87 + n) as char
    }
}

/// Lowercase hexadecimal encoding: two digits per byte, high nibble first.
pub open spec fn hex_lower(data: Seq<u8>) -> Seq<char>
    decreases data.len(),
{
    if data.len() == 0 {
        Seq::empty()
    } else {
        hex_lower(data.drop_last()) + seq![
            hex_digit(data.last() as int / 16),
            hex_digit(data.last() as int % 16),
        ]
    }
}

/// Encodes bytes as lowercase hexadecimal text.
///
/// Trusted: calls `hex::encode`, whose source turns each byte, in order, into
/// two characters of the table `0123456789abcdef`, the high nibble first and
/// then the low one; that is what the contract states.
#[verifier::external_body]
pub(crate) fn hex_encode(data: &[u8]) -> (r: String)
    ensures
        r@ == hex_lower(data@),
{
    hex::encode(data)
}

/// The encoding has two characters per byte, each a lowercase hex digit.
pub proof fn lemma_hex_lower_shape(data: Seq<u8>)
    ensures
        hex_lower(data).len() == 2 * data.len(),
        forall|i: int|
            0 <= i < hex_lower(data).len() ==> {
                let c = #[trigger] hex_lower(data)[i];
                ('0' <= c <= '9') || ('a' <= c <= 'f')
            },
    decreases data.len(),
{
    if data.len() > 0 {
        lemma_hex_lower_shape(data.drop_last());
        let prev = hex_lower(data.drop_last());
        let hi = data.last() as int / 16;
        let lo = data.last() as int % 16;
        assert(0 <= hi < 16 && 0 <= lo < 16);
        assert forall|i: int| 0 <= i < hex_lower(data).len() implies {
            let c = #[trigger] hex_lower(data)[i];
            ('0' <= c <= '9') || ('a' <= c <= 'f')
        } by {
            if i < prev.len() {
                assert(hex_lower(data)[i] == prev[i]);
            }
        }
    }
}

} // verus!
