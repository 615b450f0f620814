//! The trigger grammar: `@@rustpress.<plugin>.<Class>.<method>@@`.
//!
//! The plugin segment is one or more ASCII letters, digits, `_` or `-`;
//! the class and method segments are one or more ASCII letters, digits or
//! `_`. Nothing may precede or follow the pattern.
use vstd::prelude::*;
use crate::text::{ascii_alnum, chars_of, is_ascii_alnum, owned, push_str, string_from_chars};

verus! {

/// A character allowed in the plugin segment.
pub open spec fn is_plugin_char(c: char) -> bool {
    is_ascii_alnum(c) || c == '_' || c == '-'
}

/// A character allowed in the class and method segments.
pub open spec fn is_name_char(c: char) -> bool {
    is_ascii_alnum(c) || c == '_'
}

/// A character of a segment; `plugin` selects the plugin segment's class.
pub open spec fn is_segment_char(c: char, plugin: bool) -> bool {
    if plugin {
        is_plugin_char(c)
    } else {
        is_name_char(c)
    }
}

/// A non-empty plugin segment.
pub open spec fn is_plugin_segment(s: Seq<char>) -> bool {
    s.len() > 0 && forall|i: int| 0 <= i < s.len() ==> is_plugin_char(#[trigger] s[i])
}

/// A non-empty class or method segment.
pub open spec fn is_name_segment(s: Seq<char>) -> bool {
    s.len() > 0 && forall|i: int| 0 <= i < s.len() ==> is_name_char(#[trigger] s[i])
}

/// The text `@@rustpress.` that opens every trigger.
pub open spec fn trigger_prefix() -> Seq<char> {
    seq!['@', '@', 'r', 'u', 's', 't', 'p', 'r', 'e', 's', 's', '.']
}

/// The text `@@` that closes every trigger.
pub open spec fn trigger_suffix() -> Seq<char> {
    seq!['@', '@']
}

/// The trigger text for the given segments.
pub open spec fn trigger_text(
    plugin: Seq<char>,
    class_name: Seq<char>,
    method: Seq<char>,
) -> Seq<char> {
    trigger_prefix() + plugin + seq!['.'] + class_name + seq!['.'] + method + trigger_suffix()
}

/// Segments that the grammar accepts.
pub open spec fn well_formed_parts(plugin: Seq<char>, class_name: Seq<char>, method: Seq<char>) -> bool {
    is_plugin_segment(plugin) && is_name_segment(class_name) && is_name_segment(method)
}

/// `s` is a trigger: the text of some well-formed segments.
pub open spec fn is_trigger(s: Seq<char>) -> bool {
    exists|p: Seq<char>, c: Seq<char>, m: Seq<char>|
        well_formed_parts(p, c, m) && s == #[trigger] trigger_text(p, c, m)
}

/// The segments of a trigger, or `None` for a text that is no trigger.
pub open spec fn parse_spec(s: Seq<char>) -> Option<(Seq<char>, Seq<char>, Seq<char>)> {
    if is_trigger(s) {
        Some(
            choose|p: Seq<char>, c: Seq<char>, m: Seq<char>|
                well_formed_parts(p, c, m) && s == #[trigger] trigger_text(p, c, m),
        )
    } else {
        None
    }
}

/// Where the pieces of `trigger_text(p, c, m)` lie.
pub proof fn lemma_trigger_layout(p: Seq<char>, c: Seq<char>, m: Seq<char>)
    requires
        well_formed_parts(p, c, m),
    ensures
        ({
            let s = trigger_text(p, c, m);
            let a: int = 12 + p.len() as int;
            let b: int = a + 1 + c.len();
            let e: int = b + 1 + m.len();
            &&& s.len() == e + 2
            &&& s.subrange(0, 12) == trigger_prefix()
            &&& s[e] == '@' && s[e + 1] == '@'
            &&& s[a] == '.' && s[b] == '.'
            &&& s.subrange(12, a) == p
            &&& s.subrange(a + 1, b) == c
            &&& s.subrange(b + 1, e) == m
            &&& forall|i: int| 12 <= i < a ==> is_plugin_char(#[trigger] s[i])
            &&& forall|i: int| a + 1 <= i < b ==> is_name_char(#[trigger] s[i])
            &&& forall|i: int| b + 1 <= i < e ==> is_name_char(#[trigger] s[i])
        }),
{
    let s = trigger_text(p, c, m);
    let a: int = 12 + p.len() as int;
    let b: int = a + 1 + c.len();
    let e: int = b + 1 + m.len();
    assert(s.subrange(0, 12) =~= trigger_prefix());
    assert(s.subrange(12, a) =~= p);
    assert(s.subrange(a + 1, b) =~= c);
    assert(s.subrange(b + 1, e) =~= m);
    assert forall|i: int| 12 <= i < a implies is_plugin_char(#[trigger] s[i]) by {
        assert(s[i] == p[i - 12]);
    }
    assert forall|i: int| a + 1 <= i < b implies is_name_char(#[trigger] s[i]) by {
        assert(s[i] == c[i - a - 1]);
    }
    assert forall|i: int| b + 1 <= i < e implies is_name_char(#[trigger] s[i]) by {
        assert(s[i] == m[i - b - 1]);
    }
}

/// The segments of a trigger are determined by its text.
pub proof fn lemma_trigger_unique(
    p: Seq<char>,
    c: Seq<char>,
    m: Seq<char>,
    p2: Seq<char>,
    c2: Seq<char>,
    m2: Seq<char>,
)
    requires
        well_formed_parts(p, c, m),
        well_formed_parts(p2, c2, m2),
        trigger_text(p, c, m) == trigger_text(p2, c2, m2),
    ensures
        p == p2,
        c == c2,
        m == m2,
{
    let s = trigger_text(p, c, m);
    lemma_trigger_layout(p, c, m);
    lemma_trigger_layout(p2, c2, m2);
    let a: int = 12 + p.len() as int;
    let a2: int = 12 + p2.len() as int;
    if a < a2 {
        assert(is_plugin_char(s[a]));
    } else if a2 < a {
        assert(is_plugin_char(s[a2]));
    }
    assert(p =~= p2);
    let b: int = a + 1 + c.len();
    let b2: int = a + 1 + c2.len();
    if b < b2 {
        assert(is_name_char(s[b]));
    } else if b2 < b {
        assert(is_name_char(s[b2]));
    }
    assert(c =~= c2);
    assert(m =~= m2);
}

/// A trigger built from well-formed segments is valid and parses back into
/// exactly those segments.
pub proof fn lemma_parse_spec_of_text(p: Seq<char>, c: Seq<char>, m: Seq<char>)
    requires
        well_formed_parts(p, c, m),
    ensures
        is_trigger(trigger_text(p, c, m)),
        parse_spec(trigger_text(p, c, m)) == Some((p, c, m)),
{
    let s = trigger_text(p, c, m);
    assert(is_trigger(s));
    let (p2, c2, m2) = choose|p2: Seq<char>, c2: Seq<char>, m2: Seq<char>|
        well_formed_parts(p2, c2, m2) && s == #[trigger] trigger_text(p2, c2, m2);
    lemma_trigger_unique(p, c, m, p2, c2, m2);
}

/// A text is valid exactly when it parses, and a parsed trigger is rebuilt
/// from its segments into the same text.
pub proof fn lemma_text_of_parse_spec(s: Seq<char>)
    ensures
        is_trigger(s) <==> parse_spec(s) is Some,
        parse_spec(s) matches Some((p, c, m)) ==> well_formed_parts(p, c, m) && trigger_text(p, c, m)
            == s,
{
}

/// The number of dots in `s`.
pub open spec fn dot_count(s: Seq<char>) -> nat
    decreases s.len(),
{
    if s.len() == 0 {
        0
    } else {
        dot_count(s.drop_last()) + if s.last() == '.' {
            1nat
        } else {
            0nat
        }
    }
}

proof fn lemma_dot_count_add(a: Seq<char>, b: Seq<char>)
    ensures
        dot_count(a + b) == dot_count(a) + dot_count(b),
    decreases b.len(),
{
    if b.len() > 0 {
        assert((a + b).drop_last() =~= a + b.drop_last());
        lemma_dot_count_add(a, b.drop_last());
    } else {
        assert(a + b =~= a);
    }
}

proof fn lemma_dot_count_zero(s: Seq<char>)
    ensures
        (forall|i: int| 0 <= i < s.len() ==> #[trigger] s[i] != '.') <==> dot_count(s) == 0,
    decreases s.len(),
{
    if s.len() > 0 {
        lemma_dot_count_zero(s.drop_last());
        if dot_count(s) == 0 {
            assert forall|i: int| 0 <= i < s.len() implies #[trigger] s[i] != '.' by {
                if i < s.len() - 1 {
                    assert(s.drop_last()[i] == s[i]);
                }
            }
        }
        if forall|i: int| 0 <= i < s.len() ==> #[trigger] s[i] != '.' {
            assert forall|i: int| 0 <= i < s.drop_last().len() implies #[trigger] s.drop_last()[i]
                != '.' by {
                assert(s.drop_last()[i] == s[i]);
            }
            assert(s[s.len() - 1] != '.');
        }
    }
}

proof fn lemma_text_dot_count(p: Seq<char>, c: Seq<char>, m: Seq<char>)
    ensures
        dot_count(trigger_text(p, c, m)) == 3 + dot_count(p) + dot_count(c) + dot_count(m),
{
    let pre = trigger_prefix();
    lemma_dot_count_add(pre, p);
    lemma_dot_count_add(pre + p, seq!['.']);
    lemma_dot_count_add(pre + p + seq!['.'], c);
    lemma_dot_count_add(pre + p + seq!['.'] + c, seq!['.']);
    lemma_dot_count_add(pre + p + seq!['.'] + c + seq!['.'], m);
    lemma_dot_count_add(pre + p + seq!['.'] + c + seq!['.'] + m, trigger_suffix());
    lemma_dot_count_zero(trigger_suffix());
    assert(dot_count(pre) == 1) by {
        assert(pre.drop_last() =~= seq!['@', '@', 'r', 'u', 's', 't', 'p', 'r', 'e', 's', 's']);
        lemma_dot_count_zero(pre.drop_last());
    }
    assert(dot_count(seq!['.']) == 1) by {
        assert(seq!['.'].drop_last() =~= Seq::<char>::empty());
        assert(seq!['.'].last() == '.');
        assert(dot_count(Seq::<char>::empty()) == 0);
    }
}

/// A built trigger is valid exactly when its segments are: the plugin
/// segment non-empty of letters, digits, `_` and `-`, the class and method
/// segments non-empty of letters, digits and `_`.
pub proof fn lemma_built_trigger_valid(p: Seq<char>, c: Seq<char>, m: Seq<char>)
    ensures
        is_trigger(trigger_text(p, c, m)) <==> well_formed_parts(p, c, m),
{
    if well_formed_parts(p, c, m) {
        lemma_parse_spec_of_text(p, c, m);
    }
    let t = trigger_text(p, c, m);
    if is_trigger(t) {
        let (p2, c2, m2) = choose|p2: Seq<char>, c2: Seq<char>, m2: Seq<char>|
            well_formed_parts(p2, c2, m2) && t == #[trigger] trigger_text(p2, c2, m2);
        lemma_trigger_layout(p2, c2, m2);
        // No segment holds a dot: the text has exactly the three of the frame.
        lemma_text_dot_count(p, c, m);
        lemma_text_dot_count(p2, c2, m2);
        lemma_dot_count_zero(p2);
        lemma_dot_count_zero(c2);
        lemma_dot_count_zero(m2);
        lemma_dot_count_zero(p);
        lemma_dot_count_zero(c);
        lemma_dot_count_zero(m);
        let a: int = 12 + p.len() as int;
        let a2: int = 12 + p2.len() as int;
        assert(t[a] == '.');
        if a < a2 {
            assert(is_plugin_char(t[a]));
        } else if a2 < a {
            assert(t[a2] == p[a2 - 12]);
        }
        assert(t.subrange(12, a) =~= p);
        assert(p =~= p2);
        let b: int = a + 1 + c.len() as int;
        let b2: int = a + 1 + c2.len() as int;
        assert(t[b] == '.');
        if b < b2 {
            assert(is_name_char(t[b]));
        } else if b2 < b {
            assert(t[b2] == c[b2 - a - 1]);
        }
        assert(t.subrange(a + 1, b) =~= c);
        assert(c =~= c2);
        assert(t.subrange(b + 1, t.len() - 2) =~= m);
        assert(m =~= m2);
    }
}

proof fn lemma_prefix_dot_count()
    ensures
        dot_count(trigger_prefix()) == 1,
        forall|k: int| 0 <= k < 12 ==> trigger_prefix()[k] != '-',
{
    let pre = trigger_prefix();
    assert(pre.drop_last() =~= seq!['@', '@', 'r', 'u', 's', 't', 'p', 'r', 'e', 's', 's']);
    lemma_dot_count_zero(pre.drop_last());
}

/// The shape of every trigger: it opens with `@@rustpress.`, closes with
/// `@@`, holds exactly three dots, between the frame only letters, digits,
/// `_`, `-` and dots, and a `-` only before its second dot (in the plugin
/// segment).
pub proof fn lemma_trigger_shape(s: Seq<char>)
    requires
        is_trigger(s),
    ensures
        s.len() >= 19,
        s.take(12) == seq!['@', '@', 'r', 'u', 's', 't', 'p', 'r', 'e', 's', 's', '.'],
        s[s.len() - 2] == '@' && s[s.len() - 1] == '@',
        dot_count(s) == 3,
        forall|i: int|
            12 <= i < s.len() - 2 ==> (#[trigger] s[i] == '.' || is_ascii_alnum(s[i]) || s[i] == '_'
                || s[i] == '-'),
        forall|i: int| 0 <= i < s.len() && #[trigger] s[i] == '-' ==> dot_count(s.take(i)) == 1,
{
    let (p, c, m) = choose|p: Seq<char>, c: Seq<char>, m: Seq<char>|
        well_formed_parts(p, c, m) && s == #[trigger] trigger_text(p, c, m);
    lemma_trigger_layout(p, c, m);
    lemma_text_dot_count(p, c, m);
    lemma_dot_count_zero(p);
    lemma_dot_count_zero(c);
    lemma_dot_count_zero(m);
    lemma_prefix_dot_count();
    let a: int = 12 + p.len() as int;
    let b: int = a + 1 + c.len();
    let e: int = b + 1 + m.len();
    assert(s.take(12) =~= s.subrange(0, 12));
    assert forall|i: int| 0 <= i < s.len() && #[trigger] s[i] == '-' implies dot_count(s.take(i)) == 1 by {
        if i < 12 {
            assert(s.subrange(0, 12)[i] == s[i]);
        } else if i < a {
            let q = p.take(i - 12);
            assert(s.take(i) =~= trigger_prefix() + q);
            lemma_dot_count_add(trigger_prefix(), q);
            lemma_dot_count_zero(q);
            assert forall|j: int| 0 <= j < q.len() implies #[trigger] q[j] != '.' by {
                assert(q[j] == p[j]);
            }
        } else if i == a || i == b {
        } else if i < b {
            assert(is_name_char(s[i]));
        } else if i < e {
            assert(is_name_char(s[i]));
        }
    }
}

/// The first index at or after `start` that holds no segment character is unique.
proof fn lemma_first_stop(v: Seq<char>, start: int, end: int, plugin: bool, r: int, k: int)
    requires
        start <= r <= end,
        start <= k <= end,
        forall|i: int| start <= i < r ==> is_segment_char(#[trigger] v[i], plugin),
        r < end ==> !is_segment_char(v[r], plugin),
        forall|i: int| start <= i < k ==> is_segment_char(#[trigger] v[i], plugin),
        k < end ==> !is_segment_char(v[k], plugin),
    ensures
        r == k,
{
    if r < k {
        assert(is_segment_char(v[r], plugin));
    } else if k < r {
        assert(is_segment_char(v[k], plugin));
    }
}

fn segment_char(c: char, plugin: bool) -> (r: bool)
    ensures
        r == is_segment_char(c, plugin),
{
    ascii_alnum(c) || c == '_' || (plugin && c == '-')
}

/// The first index in `start..end` that holds no segment character, or `end`.
fn scan_segment(v: &Vec<char>, start: usize, end: usize, plugin: bool) -> (r: usize)
    requires
        start <= end <= v.len(),
    ensures
        start <= r <= end,
        forall|i: int| start <= i < r ==> is_segment_char(#[trigger] v@[i], plugin),
        r < end ==> !is_segment_char(v@[r as int], plugin),
{
    let mut i = start;
    while i < end
        invariant
            start <= i <= end <= v.len(),
            forall|j: int| start <= j < i ==> is_segment_char(#[trigger] v@[j], plugin),
        decreases end - i,
    {
        if !segment_char(v[i], plugin) {
            return i;
        }
        i = i + 1;
    }
    i
}

/// Checks the fixed text around the segments.
fn has_trigger_frame(v: &Vec<char>) -> (r: bool)
    ensures
        r == (v@.len() >= 14 && v@.subrange(0, 12) == trigger_prefix() && v@[v@.len() - 2]
            == '@' && v@[v@.len() - 1] == '@'),
{
    let n = v.len();
    if n < 14 {
        return false;
    }
    let pre = v[0] == '@' && v[1] == '@' && v[2] == 'r' && v[3] == 'u' && v[4] == 's' && v[5]
        == 't' && v[6] == 'p' && v[7] == 'r' && v[8] == 'e' && v[9] == 's' && v[10] == 's' && v[11]
        == '.';
    proof {
        if pre {
            assert(v@.subrange(0, 12) =~= trigger_prefix());
        }
        if v@.subrange(0, 12) == trigger_prefix() {
            assert forall|k: int| 0 <= k < 12 implies v@[k] == trigger_prefix()[k] by {
                assert(v@.subrange(0, 12)[k] == v@[k]);
            }
        }
    }
    pre && v[n - 2] == '@' && v[n - 1] == '@'
}

/// Locates the two dots that end the plugin and the class segments.
fn trigger_boundaries(v: &Vec<char>) -> (r: Option<(usize, usize)>)
    ensures
        r is Some <==> is_trigger(v@),
        r matches Some((a, b)) ==> {
            &&& 12 < a < b < v@.len() - 2
            &&& well_formed_parts(
                v@.subrange(12, a as int),
                v@.subrange(a + 1, b as int),
                v@.subrange(b + 1, v@.len() - 2),
            )
            &&& v@ == trigger_text(
                v@.subrange(12, a as int),
                v@.subrange(a + 1, b as int),
                v@.subrange(b + 1, v@.len() - 2),
            )
        },
{
    let ghost s = v@;
    // When `s` is a trigger, these are the places where the scans must stop.
    let ghost w = choose|p: Seq<char>, c: Seq<char>, m: Seq<char>|
        well_formed_parts(p, c, m) && s == #[trigger] trigger_text(p, c, m);
    proof {
        if is_trigger(s) {
            lemma_trigger_layout(w.0, w.1, w.2);
        }
    }
    if !has_trigger_frame(v) {
        return None;
    }
    let n = v.len();
    let end = n - 2;
    let e1 = scan_segment(v, 12, end, true);
    proof {
        if is_trigger(s) {
            lemma_first_stop(s, 12, end as int, true, e1 as int, (12 + w.0.len()) as int);
        }
    }
    if e1 == 12 || e1 >= end || v[e1] != '.' {
        return None;
    }
    let e2 = scan_segment(v, e1 + 1, end, false);
    proof {
        if is_trigger(s) {
            lemma_first_stop(s, (e1 + 1) as int, end as int, false, e2 as int, (e1 + 1 + w.1.len()) as int);
        }
    }
    if e2 == e1 + 1 || e2 >= end || v[e2] != '.' {
        return None;
    }
    let e3 = scan_segment(v, e2 + 1, end, false);
    proof {
        if is_trigger(s) {
            lemma_first_stop(s, (e2 + 1) as int, end as int, false, e3 as int, (e2 + 1 + w.2.len()) as int);
        }
    }
    if e3 == e2 + 1 || e3 != end {
        return None;
    }
    proof {
        let p = s.subrange(12, e1 as int);
        let c = s.subrange(e1 + 1, e2 as int);
        let m = s.subrange(e2 + 1, end as int);
        assert forall|i: int| 0 <= i < p.len() implies is_plugin_char(#[trigger] p[i]) by {
            assert(is_segment_char(s[12 + i], true));
        }
        assert forall|i: int| 0 <= i < c.len() implies is_name_char(#[trigger] c[i]) by {
            assert(is_segment_char(s[e1 + 1 + i], false));
        }
        assert forall|i: int| 0 <= i < m.len() implies is_name_char(#[trigger] m[i]) by {
            assert(is_segment_char(s[e2 + 1 + i], false));
        }
        assert(s =~= trigger_text(p, c, m));
    }
    Some((e1, e2))
}

/// Parsed trigger components.
#[derive(Debug, Clone, PartialEq, Eq)]
pub struct TriggerParts {
    /// Plugin name.
    pub plugin: String,
    /// Class name.
    pub class_name: String,
    /// Method name.
    pub method: String,
}

impl View for TriggerParts {
    type V = (Seq<char>, Seq<char>, Seq<char>);

    open spec fn view(&self) -> (Seq<char>, Seq<char>, Seq<char>) {
        (self.plugin@, self.class_name@, self.method@)
    }
}

/// The view of an optional [`TriggerParts`].
pub open spec fn parts_view(r: Option<TriggerParts>) -> Option<(Seq<char>, Seq<char>, Seq<char>)> {
    match r {
        Some(t) => Some(t@),
        None => None,
    }
}

/// Parses a trigger pattern into its components.
///
/// Returns `Some` exactly for the texts of the grammar, with the three
/// segments of the text.
pub fn parse_trigger(trigger: &str) -> (r: Option<TriggerParts>)
    ensures
        parts_view(r) == parse_spec(trigger@),
        r is Some <==> is_trigger(trigger@),
        r matches Some(t) ==> well_formed_parts(t.plugin@, t.class_name@, t.method@)
            && trigger@ == trigger_text(t.plugin@, t.class_name@, t.method@),
{
    let v = chars_of(trigger);
    match trigger_boundaries(&v) {
        None => None,
        Some((a, b)) => {
            let n = v.len();
            let plugin = string_from_chars(&v, 12, a);
            let class_name = string_from_chars(&v, a + 1, b);
            let method = string_from_chars(&v, b + 1, n - 2);
            proof {
                lemma_parse_spec_of_text(plugin@, class_name@, method@);
            }
            Some(TriggerParts { plugin, class_name, method })
        },
    }
}

/// Builds a trigger pattern from components.
pub fn build_trigger(plugin: &str, class_name: &str, method: &str) -> (r: String)
    ensures
        r@ == trigger_text(plugin@, class_name@, method@),
{
    let mut r = owned("@@rustpress.");
    push_str(&mut r, plugin);
    push_str(&mut r, ".");
    push_str(&mut r, class_name);
    push_str(&mut r, ".");
    push_str(&mut r, method);
    push_str(&mut r, "@@");
    proof {
        reveal_strlit("@@rustpress.");
        reveal_strlit(".");
        reveal_strlit("@@");
        assert(r@ =~= trigger_text(plugin@, class_name@, method@));
    }
    r
}

/// Validates a trigger pattern.
pub fn is_valid_trigger(trigger: &str) -> (r: bool)
    ensures
        r == is_trigger(trigger@),
{
    let v = chars_of(trigger);
    trigger_boundaries(&v).is_some()
}

} // verus!
