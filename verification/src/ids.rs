//! Unique identifiers: a hexadecimal timestamp followed by part of a random UUID.
use vstd::prelude::*;
use crate::text::{all_ascii, chars_of, owned, push_char};

verus! {

/// The lowercase hexadecimal digit of `d < 16`.
pub open spec fn hex_digit(d: nat) -> char {
    if d < 10 {
        (48 + d) as char
    } else {
        (87 + d) as char
    }
}

/// A lowercase hexadecimal digit.
pub open spec fn is_lower_hex(c: char) -> bool {
    ('0' <= c && c <= '9') || ('a' <= c && c <= 'f')
}

/// `n` in lowercase hexadecimal, without leading zeros (`0` for zero).
pub open spec fn hex_text(n: nat) -> Seq<char>
    decreases n,
{
    if n < 16 {
        seq![hex_digit(n)]
    } else {
        hex_text(n / 16).push(hex_digit(n % 16))
    }
}

/// The text of a UUID in its hyphenated lowercase form, such as
/// `67e55044-10b1-426f-9247-bb680e5fe0c8`.
pub open spec fn is_uuid_text(u: Seq<char>) -> bool {
    &&& u.len() == 36
    &&& forall|i: int|
        0 <= i < 36 ==> if i == 8 || i == 13 || i == 18 || i == 23 {
            #[trigger] u[i] == '-'
        } else {
            is_lower_hex(u[i])
        }
}

/// The identifier made from a millisecond timestamp and a UUID text: the
/// timestamp's two's-complement bits in hexadecimal, then the first twelve
/// characters of the UUID, all behind `prefix_` when a prefix is given.
pub open spec fn id_text(prefix: Option<Seq<char>>, timestamp: i64, uuid: Seq<char>) -> Seq<char> {
    let id = hex_text((timestamp as u64) as nat) + uuid.take(12);
    match prefix {
        Some(p) => p + seq!['_'] + id,
        None => id,
    }
}

/// The view of an optional string slice.
pub open spec fn opt_slice_view(s: Option<&str>) -> Option<Seq<char>> {
    match s {
        Some(t) => Some(t@),
        None => None,
    }
}

fn hex_digit_char(d: u64) -> (c: char)
    requires
        d < 16,
    ensures
        c == hex_digit(d as nat),
{
    match d {
        0 => '0',
        1 => '1',
        2 => '2',
        3 => '3',
        4 => '4',
        5 => '5',
        6 => '6',
        7 => '7',
        8 => '8',
        9 => '9',
        10 => 'a',
        11 => 'b',
        12 => 'c',
        13 => 'd',
        14 => 'e',
        _ => 'f',
    }
}

/// Appends `n` in lowercase hexadecimal.
fn push_hex(s: &mut String, n: u64)
    ensures
        final(s)@ == old(s)@ + hex_text(n as nat),
    decreases n,
{
    if n >= 16 {
        push_hex(s, n / 16);
    }
    push_char(s, hex_digit_char(n % 16));
    proof {
        if n >= 16 {
            assert(hex_text(n as nat) == hex_text((n / 16) as nat).push(hex_digit((n % 16) as nat)));
        } else {
            assert(hex_text(n as nat) == seq![hex_digit(n as nat)]);
        }
    }
}

fn timestamp_bits(t: i64) -> (r: u64)
    ensures
        r == t as u64,
{
    t as u64
}

/// Composes an identifier from a millisecond timestamp and the text of a
/// UUID, of which the first twelve characters are taken; they must be ASCII.
pub fn compose_id(prefix: Option<&str>, timestamp_millis: i64, uuid_text: &str) -> (r: String)
    requires
        uuid_text@.len() >= 12,
        all_ascii(uuid_text@.take(12)),
    ensures
        r@ == id_text(opt_slice_view(prefix), timestamp_millis, uuid_text@),
{
    let mut r = match prefix {
        Some(p) => {
            let mut r = owned(p);
            push_char(&mut r, '_');
            r
        },
        None => String::new(),
    };
    let ghost start = r@;
    push_hex(&mut r, timestamp_bits(timestamp_millis));
    let u = chars_of(uuid_text);
    let mut i: usize = 0;
    while i < 12
        invariant
            i <= 12,
            u@ == uuid_text@,
            u@.len() >= 12,
            r@ == start + hex_text((timestamp_millis as u64) as nat) + u@.take(i as int),
        decreases 12 - i,
    {
        push_char(&mut r, u[i]);
        i = i + 1;
        assert(u@.take(i as int) =~= u@.take(i - 1).push(u@[i - 1]));
    }
    proof {
        match prefix {
            Some(p) => {
                assert(r@ =~= id_text(opt_slice_view(prefix), timestamp_millis, uuid_text@));
            },
            None => {
                assert(start =~= Seq::<char>::empty());
                assert(r@ =~= id_text(opt_slice_view(prefix), timestamp_millis, uuid_text@));
            },
        }
    }
    r
}

/// A fresh random (version 4) UUID in hyphenated lowercase form.
///
/// Trusted: `uuid::Uuid::new_v4` followed by its `Display`, which writes
/// the 32 lowercase hexadecimal digits in groups of 8, 4, 4, 4 and 12
/// separated by `-`. Which UUID comes out is left unsaid: it is random.
#[verifier::external_body]
fn random_uuid_text() -> (r: String)
    ensures
        is_uuid_text(r@),
{
    uuid::Uuid::new_v4().to_string()
}

/// The current time in milliseconds since the Unix epoch.
///
/// Trusted: `chrono::Utc::now().timestamp_millis()`; nothing is said of the
/// value, which depends on the clock.
#[verifier::external_body]
fn now_millis() -> (r: i64) {
    chrono::Utc::now().timestamp_millis()
}

/// Every character of a hexadecimal text is a lowercase hexadecimal digit.
pub proof fn lemma_hex_text_digits(n: nat)
    ensures
        hex_text(n).len() > 0,
        forall|i: int| 0 <= i < hex_text(n).len() ==> is_lower_hex(#[trigger] hex_text(n)[i]),
    decreases n,
{
    if n >= 16 {
        lemma_hex_text_digits(n / 16);
    }
}

/// An identifier's characters after its prefix are lowercase hexadecimal
/// digits or `-`, and there are more than twelve of them.
pub proof fn lemma_id_text_shape(prefix: Option<Seq<char>>, timestamp: i64, uuid: Seq<char>)
    requires
        is_uuid_text(uuid),
    ensures
        ({
            let t = id_text(prefix, timestamp, uuid);
            let start = match prefix {
                Some(p) => p.len() + 1,
                None => 0,
            };
            &&& t.len() > start + 12
            &&& forall|i: int| start <= i < t.len() ==> is_lower_hex(#[trigger] t[i]) || t[i] == '-'
            &&& prefix matches Some(p) ==> t.take(p.len() + 1 as int) == p + seq!['_']
        }),
{
    let h = hex_text((timestamp as u64) as nat);
    lemma_hex_text_digits((timestamp as u64) as nat);
    let id = h + uuid.take(12);
    assert forall|i: int| 0 <= i < id.len() implies is_lower_hex(#[trigger] id[i]) || id[i] == '-' by {
        if i >= h.len() {
            assert(id[i] == uuid[i - h.len()]);
        }
    }
    let t = id_text(prefix, timestamp, uuid);
    match prefix {
        Some(p) => {
            assert(t.take(p.len() + 1 as int) =~= p + seq!['_']);
            assert forall|i: int| p.len() + 1 <= i < t.len() implies is_lower_hex(#[trigger] t[i])
                || t[i] == '-' by {
                assert(t[i] == id[i - p.len() - 1]);
            }
        },
        None => {},
    }
}

/// Generate a unique ID: `prefix_` (when a prefix is given), then the
/// current time in milliseconds in hexadecimal, then the first twelve
/// characters of a random UUID.
pub fn generate_id(prefix: Option<&str>) -> (r: String)
    ensures
        exists|timestamp: i64, uuid: Seq<char>|
            is_uuid_text(uuid) && r@ == #[trigger] id_text(opt_slice_view(prefix), timestamp, uuid),
        ({
            let start = match prefix {
                Some(p) => p@.len() + 1,
                None => 0,
            };
            &&& r@.len() > start + 12
            &&& forall|i: int| start <= i < r@.len() ==> is_lower_hex(#[trigger] r@[i]) || r@[i] == '-'
            &&& prefix matches Some(p) ==> r@.take(p@.len() + 1 as int) == p@ + seq!['_']
        }),
{
    let uuid = random_uuid_text();
    let timestamp = now_millis();
    proof {
        assert forall|i: int| 0 <= i < 12 implies (#[trigger] uuid@.take(12)[i] as u32) < 128 by {
            assert(uuid@.take(12)[i] == uuid@[i]);
            if i != 8 {
                assert(is_lower_hex(uuid@[i]));
            }
        }
    }
    let r = compose_id(prefix, timestamp, uuid.as_str());
    proof {
        lemma_id_text_shape(opt_slice_view(prefix), timestamp, uuid@);
    }
    r
}

} // verus!
