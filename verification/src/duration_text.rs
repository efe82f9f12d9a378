//! Duration texts split into their terms, so that `humantime::parse_duration`
//! is only ever handed a text on which it cannot overflow.
use vstd::prelude::*;

use crate::policy::char_vecs_view;
use crate::text::chars_of;
use crate::trusted::{humantime_duration, parse_duration};

verus! {

/// One more than the largest number of whole seconds a `Duration` holds, in
/// nanoseconds.
pub open spec fn duration_limit_nanos() -> int {
    18446744073709551616int * 1_000_000_000int
}

/// A character that can be part of a time unit (`h`, `min`, `µs`, ...).
pub open spec fn unit_char(c: char) -> bool {
    ('a' <= c && c <= 'z') || ('A' <= c && c <= 'Z') || c == 'µ'
}

/// An ASCII digit.
pub open spec fn digit_char(c: char) -> bool {
    '0' <= c && c <= '9'
}

/// No digit follows a unit character: the text holds at most one term.
pub open spec fn single_term(s: Seq<char>) -> bool {
    forall|i: int, j: int| 0 <= i < j < s.len() && unit_char(#[trigger] s[i]) ==> !digit_char(#[trigger] s[j])
}

/// Unit characters only at the end: every character after a unit character
/// is one too.
pub open spec fn units_at_end(s: Seq<char>) -> bool {
    forall|i: int, j: int| 0 <= i < j < s.len() && unit_char(#[trigger] s[i]) ==> unit_char(#[trigger] s[j])
}

/// The text cut after each maximal run of unit characters: the finished
/// pieces and the piece being read.
pub open spec fn split_state(s: Seq<char>) -> (Seq<Seq<char>>, Seq<char>)
    decreases s.len(),
{
    if s.len() == 0 {
        (Seq::empty(), Seq::empty())
    } else {
        let (done, current) = split_state(s.drop_last());
        if s.len() >= 2 && unit_char(s[s.len() - 2]) && !unit_char(s.last()) {
            (done.push(current), seq![s.last()])
        } else {
            (done, current.push(s.last()))
        }
    }
}

/// The terms of a duration text: each piece of it that ends with a run of
/// unit characters. What follows the last unit is no term.
pub open spec fn terms(s: Seq<char>) -> Seq<Seq<char>> {
    let (done, current) = split_state(s);
    if current.len() > 0 && unit_char(current.last()) {
        done.push(current)
    } else {
        done
    }
}

/// The sum of what `humantime::parse_duration` makes of each text, in
/// nanoseconds; `None` where it refuses one.
pub open spec fn total_nanos(texts: Seq<Seq<char>>) -> Option<int>
    decreases texts.len(),
{
    if texts.len() == 0 {
        Some(0)
    } else {
        match (total_nanos(texts.drop_last()), humantime_duration(texts.last())) {
            (Some(t), Some((secs, nanos))) => Some(t + secs * 1_000_000_000 + nanos),
            _ => None,
        }
    }
}

/// Every term parses on its own, and together they stay below the largest
/// duration.
pub open spec fn terms_bounded(s: Seq<char>) -> bool {
    total_nanos(terms(s)) matches Some(t) && t < duration_limit_nanos()
}

/// The duration a text stands for: what `humantime::parse_duration` makes of
/// it, where its terms parse and stay below the largest duration; `None`
/// otherwise.
pub open spec fn duration_value(s: Seq<char>) -> Option<(u64, u32)> {
    if terms_bounded(s) {
        humantime_duration(s)
    } else {
        None
    }
}

proof fn lemma_split_pieces(s: Seq<char>)
    ensures
        forall|k: int| 0 <= k < split_state(s).0.len() ==> {
            &&& units_at_end(#[trigger] split_state(s).0[k])
            &&& split_state(s).0[k].len() > 0
            &&& unit_char(split_state(s).0[k].last())
        },
        units_at_end(split_state(s).1),
        s.len() > 0 ==> split_state(s).1.len() > 0 && split_state(s).1.last() == s.last(),
    decreases s.len(),
{
    if s.len() > 0 {
        lemma_split_pieces(s.drop_last());
        let (done, current) = split_state(s.drop_last());
        if s.len() >= 2 && unit_char(s[s.len() - 2]) && !unit_char(s.last()) {
            assert(current.last() == s.drop_last().last());
            assert(units_at_end(seq![s.last()]));
        } else {
            let next = current.push(s.last());
            assert forall|i: int, j: int| 0 <= i < j < next.len() && unit_char(#[trigger] next[i]) implies unit_char(#[trigger] next[j]) by {
                if j == next.len() - 1 && i < current.len() {
                    assert(current.last() == s.drop_last().last());
                    if i < current.len() - 1 {
                        assert(unit_char(current[current.len() - 1]));
                    }
                }
            }
        }
    }
}

proof fn lemma_terms_single(s: Seq<char>)
    ensures
        forall|k: int| 0 <= k < terms(s).len() ==> single_term(#[trigger] terms(s)[k]),
{
    lemma_split_pieces(s);
    assert forall|k: int| 0 <= k < terms(s).len() implies single_term(#[trigger] terms(s)[k]) by {
        let t = terms(s)[k];
        assert(units_at_end(t));
        assert forall|i: int, j: int| 0 <= i < j < t.len() && unit_char(#[trigger] t[i]) implies !digit_char(#[trigger] t[j]) by {
            assert(unit_char(t[j]));
        }
    }
}

proof fn lemma_total_prefix(texts: Seq<Seq<char>>, i: int)
    requires
        0 <= i <= texts.len(),
    ensures
        total_nanos(texts) matches Some(t) ==> (total_nanos(texts.take(i)) matches Some(u) && u <= t),
    decreases texts.len(),
{
    if i < texts.len() {
        assert(texts.take(i) == texts.drop_last().take(i));
        lemma_total_prefix(texts.drop_last(), i);
    } else {
        assert(texts.take(i) == texts);
    }
}

fn is_unit_char(c: char) -> (r: bool)
    ensures
        r == unit_char(c),
{
    ('a' <= c && c <= 'z') || ('A' <= c && c <= 'Z') || c == 'µ'
}

fn split_terms(chars: &Vec<char>) -> (r: Vec<Vec<char>>)
    ensures
        char_vecs_view(r@) == terms(chars@),
{
    let mut done: Vec<Vec<char>> = Vec::new();
    let mut current: Vec<char> = Vec::new();
    let mut i: usize = 0;
    while i < chars.len()
        invariant
            i <= chars.len(),
            (char_vecs_view(done@), current@) == split_state(chars@.take(i as int)),
        decreases chars.len() - i,
    {
        let c = chars[i];
        assert(chars@.take(i + 1).drop_last() == chars@.take(i as int));
        if i >= 1 && is_unit_char(chars[i - 1]) && !is_unit_char(c) {
            let finished = current;
            current = Vec::new();
            current.push(c);
            done.push(finished);
            assert(char_vecs_view(done@) == char_vecs_view(done@.drop_last()).push(finished@));
        } else {
            current.push(c);
        }
        i = i + 1;
    }
    assert(chars@.take(chars.len() as int) == chars@);
    if current.len() > 0 && is_unit_char(current[current.len() - 1]) {
        let ghost before = done@;
        done.push(current);
        assert(char_vecs_view(done@) == char_vecs_view(before).push(done@.last()@));
    }
    done
}

/// What `humantime::parse_duration` makes of the text, called only where its
/// terms each parse and together stay below the largest duration; `None`
/// elsewhere. On every text where it does not panic, the parser refuses
/// exactly those texts too.
pub fn checked_duration(text: &str) -> (r: Option<(u64, u32)>)
    ensures
        r == duration_value(text@),
        r matches Some((_, n)) ==> n < 1_000_000_000,
{
    let chars = chars_of(text);
    let pieces = split_terms(&chars);
    proof {
        lemma_terms_single(chars@);
    }
    let ghost all = terms(chars@);
    let limit: u128 = 18446744073709551616u128 * 1_000_000_000u128;
    let mut total: u128 = 0;
    let mut i: usize = 0;
    while i < pieces.len()
        invariant
            i <= pieces.len(),
            char_vecs_view(pieces@) == all,
            all == terms(chars@),
            chars@ == text@,
            forall|k: int| 0 <= k < all.len() ==> single_term(#[trigger] all[k]),
            limit == duration_limit_nanos(),
            total_nanos(all.take(i as int)) == Some(total as int),
            total < limit,
        decreases pieces.len() - i,
    {
        assert(pieces@[i as int]@ == all[i as int]);
        assert(all.take(i + 1).drop_last() == all.take(i as int));
        assert(all.take(i + 1).last() == all[i as int]);
        match parse_duration(&pieces[i]) {
            None => {
                proof {
                    assert(humantime_duration(all[i as int]) is None);
                    assert(total_nanos(all.take(i + 1)) is None);
                    lemma_total_prefix(all, i + 1);
                    assert(!terms_bounded(chars@));
                    assert(duration_value(text@) is None);
                }
                return None;
            },
            Some((secs, nanos)) => {
                let ghost before = total as int;
                total = total + (secs as u128) * 1_000_000_000u128 + nanos as u128;
                assert(humantime_duration(all[i as int]) == Some((secs, nanos)));
                assert(total_nanos(all.take(i + 1)) == Some(before + secs * 1_000_000_000 + nanos));
                assert(total as int == before + secs * 1_000_000_000 + nanos);
                if total >= limit {
                    proof {
                        lemma_total_prefix(all, i + 1);
                        assert(!terms_bounded(chars@));
                    assert(duration_value(text@) is None);
                    }
                    return None;
                }
            },
        }
        i = i + 1;
    }
    assert(all.take(i as int) == all);
    parse_duration(&chars)
}

} // verus!
