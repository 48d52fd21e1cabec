//! Lists of memory ids and list cursors as callers pass them: decimal
//! strings, read leniently for feedback and strictly for deletion.
use vstd::prelude::*;
use crate::error::ArgumentError;
use crate::decimal::{decimal_text, decimal_u128, format_u128, lemma_decimal_round_trip, parse_u128};

verus! {

/// The characters of each string of a list.
pub open spec fn texts(s: Seq<String>) -> Seq<Seq<char>> {
    s.map_values(|x: String| x@)
}

/// The ids that the texts `s` denote, in order, skipping every text that is
/// not a decimal `u128`.
pub open spec fn readable_ids(s: Seq<Seq<char>>) -> Seq<u128>
    decreases s.len(),
{
    if s.len() == 0 {
        Seq::empty()
    } else {
        let rest = readable_ids(s.drop_last());
        match decimal_u128(s.last()) {
            Some(v) => rest.push(v),
            None => rest,
        }
    }
}

/// The position of the first text of `s` that is not a decimal `u128`, if
/// there is one.
pub open spec fn first_unreadable(s: Seq<Seq<char>>) -> Option<int>
    decreases s.len(),
{
    if s.len() == 0 {
        None
    } else {
        match first_unreadable(s.drop_last()) {
            Some(i) => Some(i),
            None => if decimal_u128(s.last()) is None {
                Some(s.len() - 1)
            } else {
                None
            },
        }
    }
}

/// The ids of a feedback call: each string that reads as a decimal `u128`
/// gives its id, in order; the others are left out without an error.
pub fn feedback_memory_ids(ids: &Vec<String>) -> (r: Vec<u128>)
    ensures
        r@ == readable_ids(texts(ids@)),
{
    let mut r: Vec<u128> = Vec::new();
    let n = ids.len();
    let mut i: usize = 0;
    while i < n
        invariant
            i <= n,
            n == ids@.len(),
            r@ == readable_ids(texts(ids@.subrange(0, i as int))),
        decreases n - i,
    {
        let ghost before = ids@.subrange(0, i as int);
        let ghost after = ids@.subrange(0, i + 1);
        assert(texts(after).drop_last() =~= texts(before));
        assert(texts(after).last() == ids@[i as int]@);
        match parse_u128(ids[i].as_str()) {
            Some(v) => r.push(v),
            None => {},
        }
        i = i + 1;
    }
    assert(ids@.subrange(0, n as int) =~= ids@);
    r
}

/// The ids of a deletion: every string must read as a decimal `u128`;
/// otherwise the first one that does not is refused.
pub fn delete_memory_ids(ids: &Vec<String>) -> (r: Result<Vec<u128>, ArgumentError>)
    ensures
        first_unreadable(texts(ids@)) is None ==> (r matches Ok(v) && v@ == readable_ids(
            texts(ids@),
        )),
        first_unreadable(texts(ids@)) matches Some(k) ==> (r matches Err(
            ArgumentError::InvalidMemoryId(t),
        ) && t@ == ids@[k]@),
{
    let mut r: Vec<u128> = Vec::new();
    let n = ids.len();
    let mut i: usize = 0;
    while i < n
        invariant
            i <= n,
            n == ids@.len(),
            first_unreadable(texts(ids@.subrange(0, i as int))) is None,
            r@ == readable_ids(texts(ids@.subrange(0, i as int))),
        decreases n - i,
    {
        let ghost before = ids@.subrange(0, i as int);
        let ghost after = ids@.subrange(0, i + 1);
        assert(texts(after).drop_last() =~= texts(before));
        assert(texts(after).last() == ids@[i as int]@);
        match parse_u128(ids[i].as_str()) {
            Some(v) => r.push(v),
            None => {
                proof {
                    assert(texts(after) =~= texts(ids@).subrange(0, i + 1));
                    assert(first_unreadable(texts(after)) == Some(i as int));
                    lemma_first_unreadable_stays(texts(ids@), (i + 1) as int);
                }
                return Err(ArgumentError::InvalidMemoryId(ids[i].clone()));
            },
        }
        i = i + 1;
    }
    assert(ids@.subrange(0, n as int) =~= ids@);
    Ok(r)
}

/// Once a prefix of `s` holds an unreadable text, the first one of the
/// prefix is the first one of `s`.
proof fn lemma_first_unreadable_stays(s: Seq<Seq<char>>, k: int)
    requires
        0 <= k <= s.len(),
        first_unreadable(s.subrange(0, k)) is Some,
    ensures
        first_unreadable(s) == first_unreadable(s.subrange(0, k)),
    decreases s.len(),
{
    if k < s.len() {
        assert(s.drop_last().subrange(0, k) =~= s.subrange(0, k));
        lemma_first_unreadable_stays(s.drop_last(), k);
    } else {
        assert(s.subrange(0, k) =~= s);
    }
}

/// Reading the ids of a list piece by piece: a list of one text gives that
/// text's id when it reads and nothing otherwise, and the ids of two lists
/// put one after the other are the ids of the first followed by those of
/// the second.
pub proof fn lemma_readable_ids_pieces(a: Seq<Seq<char>>, b: Seq<Seq<char>>, t: Seq<char>)
    ensures
        readable_ids(seq![t]) == (match decimal_u128(t) {
            Some(v) => seq![v],
            None => Seq::<u128>::empty(),
        }),
        readable_ids(a + b) == readable_ids(a) + readable_ids(b),
    decreases b.len(),
{
    assert(seq![t].drop_last() =~= Seq::<Seq<char>>::empty());
    assert(seq![t].last() == t);
    assert(readable_ids(Seq::<Seq<char>>::empty()) == Seq::<u128>::empty());
    match decimal_u128(t) {
        Some(v) => {
            assert(Seq::<u128>::empty().push(v) =~= seq![v]);
        },
        None => {},
    }
    if b.len() == 0 {
        assert(a + b =~= a);
        assert(readable_ids(a) + readable_ids(b) =~= readable_ids(a));
    } else {
        lemma_readable_ids_pieces(a, b.drop_last(), t);
        assert((a + b).drop_last() =~= a + b.drop_last());
        assert((a + b).last() == b.last());
        match decimal_u128(b.last()) {
            Some(v) => {
                assert((readable_ids(a) + readable_ids(b.drop_last())).push(v) =~= readable_ids(a)
                    + readable_ids(b.drop_last()).push(v));
            },
            None => {},
        }
    }
}

/// The text a deletion refuses is the first one of the list that does not
/// read: every text before it reads; and no text is refused exactly when
/// every text of the list reads.
pub proof fn lemma_first_unreadable(s: Seq<Seq<char>>)
    ensures
        first_unreadable(s) matches Some(i) ==> (0 <= i < s.len() && decimal_u128(s[i]) is None
            && forall|j: int| 0 <= j < i ==> decimal_u128(#[trigger] s[j]) is Some),
        first_unreadable(s) is None <==> forall|j: int|
            0 <= j < s.len() ==> decimal_u128(#[trigger] s[j]) is Some,
    decreases s.len(),
{
    if s.len() > 0 {
        let p = s.drop_last();
        lemma_first_unreadable(p);
        assert forall|j: int| 0 <= j < p.len() implies #[trigger] p[j] == s[j] by {}
        if first_unreadable(p) is None && decimal_u128(s.last()) is Some {
            assert forall|j: int| 0 <= j < s.len() implies decimal_u128(#[trigger] s[j]) is Some by {
                if j < p.len() {
                    assert(p[j] == s[j]);
                }
            }
        }
        match first_unreadable(p) {
            Some(i) => {
                assert(p[i] == s[i]);
                assert forall|j: int| 0 <= j < i implies decimal_u128(#[trigger] s[j]) is Some by {
                    assert(p[j] == s[j]);
                }
            },
            None => {
                assert forall|j: int| 0 <= j < p.len() implies decimal_u128(#[trigger] s[j]) is Some by {
                    assert(p[j] == s[j]);
                }
            },
        }
    }
}

/// The texts that `format_u128` writes for a list of ids.
pub open spec fn id_texts(ids: Seq<u128>) -> Seq<Seq<char>> {
    ids.map_values(|n: u128| decimal_text(n as nat))
}

/// The ids a caller gets back from writes and listings are accepted as they
/// are: each reads back as the id it was written from, none is refused by a
/// deletion, and none is left out of a feedback.
pub proof fn lemma_written_ids_read_back(ids: Seq<u128>)
    ensures
        readable_ids(id_texts(ids)) == ids,
        first_unreadable(id_texts(ids)) is None,
    decreases ids.len(),
{
    if ids.len() > 0 {
        let t = id_texts(ids);
        lemma_written_ids_read_back(ids.drop_last());
        assert(t.drop_last() =~= id_texts(ids.drop_last()));
        lemma_decimal_round_trip(ids.last());
        assert(ids.drop_last().push(ids.last()) =~= ids);
    } else {
        assert(id_texts(ids) =~= Seq::<Seq<char>>::empty());
    }
}

/// The cursor a caller passes for a listing: the decimal `u128` it reads as,
/// or none when it is absent or does not read as one.
pub open spec fn cursor_of(text: Option<Seq<char>>) -> Option<u128> {
    match text {
        Some(t) => decimal_u128(t),
        None => None,
    }
}

/// The text of a listing's next-page cursor.
pub open spec fn cursor_text(cursor: Option<u128>) -> Option<Seq<char>> {
    match cursor {
        Some(c) => Some(decimal_text(c as nat)),
        None => None,
    }
}

/// The characters of an optional string.
pub open spec fn opt_text(s: Option<String>) -> Option<Seq<char>> {
    match s {
        Some(x) => Some(x@),
        None => None,
    }
}

/// The next-page cursor of a listing as the caller receives it: the decimal
/// text of the engine's cursor, or none on the last page.
pub fn format_cursor(cursor: Option<u128>) -> (r: Option<String>)
    ensures
        opt_text(r) == cursor_text(cursor),
{
    match cursor {
        Some(c) => Some(format_u128(c)),
        None => None,
    }
}

/// A cursor the caller passes is read exactly as an id is read; an absent
/// cursor asks for the first page.
pub proof fn lemma_cursor_reading(text: Seq<char>)
    ensures
        cursor_of(Some(text)) == decimal_u128(text),
        cursor_of(None) is None,
{
}

/// Passing a listing's next-page cursor back, as it was received, asks for
/// the page that the engine's cursor points at.
pub proof fn lemma_cursor_round_trip(cursor: Option<u128>)
    ensures
        cursor_of(cursor_text(cursor)) == cursor,
{
    if let Some(c) = cursor {
        lemma_decimal_round_trip(c);
    }
}

} // verus!
