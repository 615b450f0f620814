//! Project names: the struct name and the crate name derived from a project name.
use vstd::prelude::*;
use crate::text::{all_ascii, chars_of, push_char, push_str};

verus! {

/// What `char::to_uppercase` gives for `c` (one or more characters).
pub uninterp spec fn char_uppercase(c: char) -> Seq<char>;

/// What `str::to_lowercase` gives for `s`.
pub uninterp spec fn text_lowercase(s: Seq<char>) -> Seq<char>;

/// The uppercase form of an ASCII character: letters `a` to `z` become
/// `A` to `Z`, other characters stay.
pub open spec fn ascii_upper(c: char) -> char {
    if 'a' <= c && c <= 'z' {
        ((c as u32) - 32) as char
    } else {
        c
    }
}

/// The lowercase form of an ASCII character: letters `A` to `Z` become
/// `a` to `z`, other characters stay.
pub open spec fn ascii_lower(c: char) -> char {
    if 'A' <= c && c <= 'Z' {
        ((c as u32) + 32) as char
    } else {
        c
    }
}

/// Trusted: `char::to_uppercase`, collected into a string. Its result (the
/// Unicode uppercase mapping, which may be several characters) is named;
/// only for ASCII characters is it described.
#[verifier::external_body]
fn uppercase_of(c: char) -> (r: String)
    ensures
        r@ == char_uppercase(c),
        (c as u32) < 128 ==> r@ == seq![ascii_upper(c)],
{
    c.to_uppercase().collect()
}

/// Trusted: `str::to_lowercase`. Its result (the Unicode lowercase
/// mapping, which depends on context for some letters) is named; only for
/// ASCII text is it described.
#[verifier::external_body]
pub(crate) fn lowercase_of(s: &str) -> (r: String)
    ensures
        r@ == text_lowercase(s@),
        all_ascii(s@) ==> r@ == s@.map_values(|c: char| ascii_lower(c)),
{
    s.to_lowercase()
}

/// Every `-` replaced by `_`.
pub open spec fn snake_case(s: Seq<char>) -> Seq<char> {
    s.map_values(|c: char| if c == '-' { '_' } else { c })
}

/// What character `i` of a project name contributes to its struct name:
/// nothing for `-`, its uppercase form where it starts a `-`-separated
/// word, itself otherwise.
pub open spec fn struct_name_piece(s: Seq<char>, i: int) -> Seq<char> {
    if s[i] == '-' {
        Seq::empty()
    } else if i == 0 || s[i - 1] == '-' {
        char_uppercase(s[i])
    } else {
        seq![s[i]]
    }
}

/// The struct name of the first `n` characters of a project name.
pub open spec fn struct_name_prefix(s: Seq<char>, n: nat) -> Seq<char>
    decreases n,
{
    if n == 0 {
        Seq::empty()
    } else {
        struct_name_prefix(s, (n - 1) as nat) + struct_name_piece(s, n - 1)
    }
}

/// The struct name of a project name: its `-`-separated words, each with
/// its first character uppercased, joined without separator.
pub open spec fn struct_name_text(s: Seq<char>) -> Seq<char> {
    struct_name_prefix(s, s.len())
}

/// What character `i` of an ASCII project name contributes to its struct
/// name: as [`struct_name_piece`], with the ASCII uppercase at word starts.
pub open spec fn ascii_struct_name_piece(s: Seq<char>, i: int) -> Seq<char> {
    if s[i] == '-' {
        Seq::empty()
    } else if i == 0 || s[i - 1] == '-' {
        seq![ascii_upper(s[i])]
    } else {
        seq![s[i]]
    }
}

/// The struct name of the first `n` characters of an ASCII project name.
pub open spec fn ascii_struct_name_prefix(s: Seq<char>, n: nat) -> Seq<char>
    decreases n,
{
    if n == 0 {
        Seq::empty()
    } else {
        ascii_struct_name_prefix(s, (n - 1) as nat) + ascii_struct_name_piece(s, n - 1)
    }
}

/// The struct name of an ASCII project name: its `-`-separated words, each
/// with its first letter made uppercase, joined without separator.
pub open spec fn ascii_struct_name(s: Seq<char>) -> Seq<char> {
    ascii_struct_name_prefix(s, s.len())
}

/// The ASCII uppercase form of an ASCII character is ASCII.
pub proof fn lemma_ascii_upper_ascii(c: char)
    requires
        (c as u32) < 128,
    ensures
        (ascii_upper(c) as u32) < 128,
{
}

/// The struct name of an ASCII project name is ASCII and holds no `-`.
pub proof fn lemma_ascii_struct_name_prefix(s: Seq<char>, n: nat)
    requires
        all_ascii(s),
        n <= s.len(),
    ensures
        all_ascii(ascii_struct_name_prefix(s, n)),
        !ascii_struct_name_prefix(s, n).contains('-'),
    decreases n,
{
    if n > 0 {
        lemma_ascii_struct_name_prefix(s, (n - 1) as nat);
        lemma_ascii_upper_ascii(s[n - 1]);
        let p = ascii_struct_name_prefix(s, (n - 1) as nat);
        let q = ascii_struct_name_piece(s, n - 1);
        assert forall|i: int| 0 <= i < (p + q).len() implies ((#[trigger] (p + q)[i]) as u32) < 128
            && (p + q)[i] != '-' by {
            if i >= p.len() {
                assert((p + q)[i] == q[i - p.len()]);
            } else {
                assert((p + q)[i] == p[i]);
            }
        }
    }
}

proof fn lemma_struct_prefix_extend(s: Seq<char>, t: Seq<char>, n: nat)
    requires
        n <= s.len(),
    ensures
        struct_name_prefix(s + t, n) == struct_name_prefix(s, n),
        ascii_struct_name_prefix(s + t, n) == ascii_struct_name_prefix(s, n),
    decreases n,
{
    if n > 0 {
        lemma_struct_prefix_extend(s, t, (n - 1) as nat);
        assert((s + t)[n - 1] == s[n - 1]);
        if n >= 2 {
            assert((s + t)[n - 2] == s[n - 2]);
        }
        assert(struct_name_piece(s + t, n - 1) == struct_name_piece(s, n - 1));
        assert(ascii_struct_name_piece(s + t, n - 1) == ascii_struct_name_piece(s, n - 1));
    }
}

proof fn lemma_struct_prefix_after_dash(a: Seq<char>, b: Seq<char>, k: nat)
    requires
        k <= b.len(),
    ensures
        struct_name_prefix(a + seq!['-'] + b, a.len() + 1 + k) == struct_name_text(a)
            + struct_name_prefix(b, k),
        ascii_struct_name_prefix(a + seq!['-'] + b, a.len() + 1 + k) == ascii_struct_name(a)
            + ascii_struct_name_prefix(b, k),
    decreases k,
{
    let s = a + seq!['-'] + b;
    let n = a.len();
    if k == 0 {
        assert(s =~= a + (seq!['-'] + b));
        lemma_struct_prefix_extend(a, seq!['-'] + b, n);
        assert(s[n as int] == '-');
        assert(struct_name_prefix(s, n + 1) =~= struct_name_text(a) + struct_name_prefix(b, 0));
        assert(ascii_struct_name_prefix(s, n + 1) =~= ascii_struct_name(a)
            + ascii_struct_name_prefix(b, 0));
    } else {
        lemma_struct_prefix_after_dash(a, b, (k - 1) as nat);
        let i: int = (n + k) as int;
        assert(s[i] == b[k - 1]);
        if k >= 2 {
            assert(s[i - 1] == b[k - 2]);
        } else {
            assert(s[i - 1] == '-');
        }
        assert(struct_name_piece(s, i) == struct_name_piece(b, k - 1));
        assert(ascii_struct_name_piece(s, i) == ascii_struct_name_piece(b, k - 1));
        assert(struct_name_prefix(s, (n + 1 + k) as nat) =~= struct_name_text(a) + struct_name_prefix(
            b,
            k,
        ));
        assert(ascii_struct_name_prefix(s, (n + 1 + k) as nat) =~= ascii_struct_name(a)
            + ascii_struct_name_prefix(b, k));
    }
}

/// The struct name of two names joined by `-` is the struct name of the
/// first followed by that of the second: the `-` is dropped and the word
/// after it starts anew. The empty name has the empty struct name.
pub proof fn lemma_struct_name_dash(a: Seq<char>, b: Seq<char>)
    ensures
        struct_name_text(a + seq!['-'] + b) == struct_name_text(a) + struct_name_text(b),
        ascii_struct_name(a + seq!['-'] + b) == ascii_struct_name(a) + ascii_struct_name(b),
        struct_name_text(Seq::empty()) == Seq::<char>::empty(),
        ascii_struct_name(Seq::empty()) == Seq::<char>::empty(),
{
    lemma_struct_prefix_after_dash(a, b, b.len());
    assert((a + seq!['-'] + b).len() == a.len() + 1 + b.len());
}

proof fn lemma_struct_prefix_word(s: Seq<char>, n: nat)
    requires
        1 <= n <= s.len(),
        forall|i: int| 0 <= i < s.len() ==> #[trigger] s[i] != '-',
    ensures
        struct_name_prefix(s, n) == char_uppercase(s[0]) + s.subrange(1, n as int),
        ascii_struct_name_prefix(s, n) == seq![ascii_upper(s[0])] + s.subrange(1, n as int),
    decreases n,
{
    if n == 1 {
        assert(struct_name_prefix(s, 0) == Seq::<char>::empty());
        assert(ascii_struct_name_prefix(s, 0) == Seq::<char>::empty());
        assert(struct_name_piece(s, 0) == char_uppercase(s[0]));
        assert(struct_name_prefix(s, 1) =~= char_uppercase(s[0]) + s.subrange(1, 1));
        assert(ascii_struct_name_prefix(s, 1) =~= seq![ascii_upper(s[0])] + s.subrange(1, 1));
    } else {
        lemma_struct_prefix_word(s, (n - 1) as nat);
        assert(s[n - 1] != '-' && s[n - 2] != '-');
        assert(struct_name_prefix(s, n) =~= char_uppercase(s[0]) + s.subrange(1, n as int));
        assert(ascii_struct_name_prefix(s, n) =~= seq![ascii_upper(s[0])] + s.subrange(1, n as int));
    }
}

/// The struct name of a single word (a name without `-`) is its first
/// character made uppercase followed by every other character unchanged.
pub proof fn lemma_struct_name_word(s: Seq<char>)
    requires
        s.len() > 0,
        forall|i: int| 0 <= i < s.len() ==> #[trigger] s[i] != '-',
    ensures
        struct_name_text(s) == char_uppercase(s[0]) + s.drop_first(),
        ascii_struct_name(s) == seq![ascii_upper(s[0])] + s.drop_first(),
{
    lemma_struct_prefix_word(s, s.len());
    assert(s.subrange(1, s.len() as int) =~= s.drop_first());
}

/// The crate name of a project name has its length; each `-` becomes `_`
/// and every other character stays in its place.
pub proof fn lemma_snake_case_chars(s: Seq<char>)
    ensures
        snake_case(s).len() == s.len(),
        forall|i: int| 0 <= i < s.len() ==> {
            &&& #[trigger] s[i] == '-' ==> snake_case(s)[i] == '_'
            &&& s[i] != '-' ==> snake_case(s)[i] == s[i]
        },
        !snake_case(s).contains('-'),
{
}

/// The crate name of a project name: every `-` replaced by `_`.
pub fn to_snake_case(name: &str) -> (r: String)
    ensures
        r@ == snake_case(name@),
{
    let v = chars_of(name);
    let mut r = String::new();
    let mut i: usize = 0;
    while i < v.len()
        invariant
            i <= v.len(),
            v@ == name@,
            r@ == snake_case(name@.take(i as int)),
        decreases v.len() - i,
    {
        let c = v[i];
        if c == '-' {
            push_char(&mut r, '_');
        } else {
            push_char(&mut r, c);
        }
        i = i + 1;
        assert(snake_case(name@.take(i as int)) =~= snake_case(name@.take(i - 1)).push(
            if c == '-' { '_' } else { c },
        ));
    }
    assert(name@.take(v.len() as int) =~= name@);
    r
}

/// The struct name of a project name: `my-cool-plugin` gives `MyCoolPlugin`.
pub fn to_struct_name(name: &str) -> (r: String)
    ensures
        r@ == struct_name_text(name@),
        all_ascii(name@) ==> r@ == ascii_struct_name(name@),
{
    let v = chars_of(name);
    let mut r = String::new();
    let mut i: usize = 0;
    while i < v.len()
        invariant
            i <= v.len(),
            v@ == name@,
            r@ == struct_name_prefix(name@, i as nat),
            all_ascii(name@) ==> r@ == ascii_struct_name_prefix(name@, i as nat),
        decreases v.len() - i,
    {
        let c = v[i];
        assert(all_ascii(name@) ==> (name@[i as int] as u32) < 128);
        if c == '-' {
        } else if i == 0 || v[i - 1] == '-' {
            let u = uppercase_of(c);
            push_str(&mut r, u.as_str());
        } else {
            push_char(&mut r, c);
        }
        i = i + 1;
        assert(r@ =~= struct_name_prefix(name@, i as nat));
        assert(all_ascii(name@) ==> r@ =~= ascii_struct_name_prefix(name@, i as nat));
    }
    r
}

} // verus!
