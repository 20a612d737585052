//! Key/value property lists.
//!
//! Announcements carry their metadata as a list of key/value pairs, and a
//! fetched document carries its extension payloads the same way. Lookup
//! matches keys without regard to ASCII case — key case is not significant
//! on the wire — and the first matching pair wins.

use vstd::prelude::*;
use vstd::string::StrSliceExecFns;

verus! {

/// The view of a key/value pair list: each pair as a pair of character
/// sequences.
pub open spec fn kv_view(pairs: Seq<(String, String)>) -> Seq<(Seq<char>, Seq<char>)> {
    pairs.map_values(|p: (String, String)| (p.0@, p.1@))
}

/// The view of a list of strings: each as its character sequence.
pub open spec fn strings_view(items: Seq<String>) -> Seq<Seq<char>> {
    items.map_values(|s: String| s@)
}

/// `c` with an ASCII upper-case letter folded to lower case; any other
/// character is left as it is.
pub open spec fn lower_char(c: char) -> char {
    if 'A' <= c && c <= 'Z' {
        ((c as u32) + 32) as char
    } else {
        c
    }
}

/// `s` with every ASCII upper-case letter folded to lower case.
pub open spec fn lower(s: Seq<char>) -> Seq<char> {
    s.map_values(|c: char| lower_char(c))
}

/// Whether two keys are the same up to ASCII case.
pub open spec fn keys_match(a: Seq<char>, b: Seq<char>) -> bool {
    lower(a) == lower(b)
}

/// The value bound to `key`: the second component of the first pair whose
/// first component equals `key` up to ASCII case, or `None` when no pair
/// matches.
pub open spec fn lookup(pairs: Seq<(Seq<char>, Seq<char>)>, key: Seq<char>) -> Option<Seq<char>>
    decreases pairs.len(),
{
    if pairs.len() == 0 {
        None
    } else if keys_match(pairs[0].0, key) {
        Some(pairs[0].1)
    } else {
        lookup(pairs.drop_first(), key)
    }
}

/// Fold an ASCII upper-case letter to lower case.
fn lower_char_exec(c: char) -> (r: char)
    ensures
        r == lower_char(c),
{
    if 'A' <= c && c <= 'Z' {
        let u = c as u32;
        let l = (u + 32) as u8;
        l as char
    } else {
        c
    }
}

/// Compare two keys, ignoring ASCII case.
pub fn keys_equal(a: &str, b: &str) -> (r: bool)
    ensures
        r == keys_match(a@, b@),
{
    let a_len = a.unicode_len();
    let b_len = b.unicode_len();
    if a_len != b_len {
        proof {
            assert(lower(a@).len() != lower(b@).len());
        }
        return false;
    }
    let mut i: usize = 0;
    while i < a_len
        invariant
            i <= a_len,
            a_len == a@.len(),
            b_len == b@.len(),
            a_len == b_len,
            forall|j: int| 0 <= j < i ==> lower_char(a@[j]) == lower_char(b@[j]),
        decreases a_len - i,
    {
        let ca = a.get_char(i);
        let cb = b.get_char(i);
        if lower_char_exec(ca) != lower_char_exec(cb) {
            proof {
                assert(lower(a@)[i as int] != lower(b@)[i as int]);
            }
            return false;
        }
        i = i + 1;
    }
    proof {
        assert(lower(a@) =~= lower(b@));
    }
    true
}

/// Look `key` up in a property list, ignoring the ASCII case of keys; the
/// first matching pair wins.
pub fn lookup_value(pairs: &Vec<(String, String)>, key: &str) -> (r: Option<String>)
    ensures
        r is Some <==> lookup(kv_view(pairs@), key@) is Some,
        r is Some ==> r.unwrap()@ == lookup(kv_view(pairs@), key@).unwrap(),
{
    let ghost full: Seq<(Seq<char>, Seq<char>)> = kv_view(pairs@);
    proof {
        assert(full.skip(0) =~= full);
    }
    let mut i: usize = 0;
    while i < pairs.len()
        invariant
            i <= pairs.len(),
            full == kv_view(pairs@),
            lookup(full, key@) == lookup(full.skip(i as int), key@),
        decreases pairs.len() - i,
    {
        if keys_equal(pairs[i].0.as_str(), key) {
            proof {
                assert(full.skip(i as int)[0] == (pairs@[i as int].0@, pairs@[i as int].1@));
            }
            return Some(pairs[i].1.clone());
        }
        proof {
            assert(full.skip(i as int).drop_first() =~= full.skip(i as int + 1));
        }
        i = i + 1;
    }
    proof {
        assert(full.skip(pairs.len() as int) =~= Seq::<(Seq<char>, Seq<char>)>::empty());
    }
    None
}

/// Key lookup ignores the ASCII case of the queried key: two keys that
/// agree up to case retrieve the same value, whatever case the stored
/// keys use.
pub proof fn lemma_lookup_ignores_key_case(
    pairs: Seq<(Seq<char>, Seq<char>)>,
    key1: Seq<char>,
    key2: Seq<char>,
)
    requires
        keys_match(key1, key2),
    ensures
        lookup(pairs, key1) == lookup(pairs, key2),
    decreases pairs.len(),
{
    if pairs.len() > 0 {
        lemma_lookup_ignores_key_case(pairs.drop_first(), key1, key2);
    }
}

} // verus!
