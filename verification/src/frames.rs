//! The files that hold the frames of a video: how they are named, which
//! frame a name stands for, and the order in which the frames play.

use vstd::prelude::*;
use vstd::string::{StrSliceExecFns, StringExecFns};
use crate::text::texts;

verus! {

/// What the name of every frame file begins with.
pub const FRAME_PREFIX: &'static str = "frame_";

/// What the name of every frame file ends with.
pub const FRAME_SUFFIX: &'static str = ".png";

/// The pattern that the frame extractor names its output files by: the
/// prefix, the number of the frame padded with zeros to four digits, and
/// the suffix.
pub const FRAME_PATTERN: &'static str = "frame_%04d.png";

/// The directory that holds the frames of the video being played.
pub const FRAME_DIRECTORY: &'static str = "assets/frames";

/// The output pattern for the frame extractor in a directory: the
/// directory, a slash, and [`FRAME_PATTERN`].
pub fn output_pattern(directory: &str) -> (pattern: String)
    ensures
        pattern@ == directory@ + seq!['/'] + FRAME_PATTERN@,
{
    let mut pattern = String::from_str(directory);
    pattern.push('/');
    pattern.append(FRAME_PATTERN);
    pattern
}

/// The character is a decimal digit.
pub open spec fn is_digit(c: char) -> bool {
    '0' <= c && c <= '9'
}

/// The value of a decimal digit, and zero for any other character.
pub open spec fn digit_value(c: char) -> nat {
    if is_digit(c) {
        (c as int - 48) as nat
    } else {
        0
    }
}

/// The number that a run of decimal digits spells.
pub open spec fn digits_value(digits: Seq<char>) -> nat
    decreases digits.len(),
{
    if digits.len() == 0 {
        0
    } else {
        digits_value(digits.drop_last()) * 10 + digit_value(digits.last())
    }
}

/// What stands between the prefix and the suffix of a name.
pub open spec fn frame_digits(name: Seq<char>) -> Seq<char> {
    name.subrange(FRAME_PREFIX@.len() as int, name.len() - FRAME_SUFFIX@.len())
}

/// The name is the prefix, one or more decimal digits that spell a number
/// of at most 64 bits, and the suffix.
pub open spec fn is_frame_name(name: Seq<char>) -> bool {
    &&& name.len() > FRAME_PREFIX@.len() + FRAME_SUFFIX@.len()
    &&& name.subrange(0, FRAME_PREFIX@.len() as int) == FRAME_PREFIX@
    &&& name.subrange(name.len() - FRAME_SUFFIX@.len(), name.len() as int) == FRAME_SUFFIX@
    &&& forall|i: int| 0 <= i < frame_digits(name).len() ==> is_digit(#[trigger] frame_digits(name)[i])
    &&& digits_value(frame_digits(name)) <= u64::MAX
}

/// The number of the frame that a file name stands for, if it is the name
/// of a frame at all.
pub open spec fn frame_number_of(name: Seq<char>) -> Option<u64> {
    if is_frame_name(name) {
        Some(digits_value(frame_digits(name)) as u64)
    } else {
        None
    }
}

/// The digits read so far never spell more than all of them.
proof fn lemma_prefix_value(digits: Seq<char>, k: int)
    requires
        0 <= k <= digits.len(),
    ensures
        digits_value(digits.subrange(0, k)) <= digits_value(digits),
    decreases digits.len() - k,
{
    if k < digits.len() {
        lemma_prefix_value(digits, k + 1);
        assert(digits.subrange(0, k + 1).drop_last() == digits.subrange(0, k));
    } else {
        assert(digits.subrange(0, k) == digits);
    }
}

/// Tells whether `part` stands in `name` from position `at` on.
fn has_text_at(name: &str, at: usize, part: &str) -> (found: bool)
    requires
        at + part@.len() <= name@.len(),
    ensures
        found == (name@.subrange(at as int, at + part@.len()) == part@),
{
    let len = part.unicode_len();
    let total = name.unicode_len();
    let mut i: usize = 0;
    while i < len
        invariant
            i <= len,
            len == part@.len(),
            total == name@.len(),
            at + len <= total,
            name@.subrange(at as int, at + i) == part@.subrange(0, i as int),
        decreases len - i,
    {
        if name.get_char(at + i) != part.get_char(i) {
            return false;
        }
        assert(name@.subrange(at as int, at + i + 1) == name@.subrange(at as int, at + i).push(
            name@[at + i],
        ));
        i += 1;
    }
    assert(part@.subrange(0, len as int) == part@);
    true
}

/// Computes [`frame_number_of`].
pub fn frame_number(name: &str) -> (number: Option<u64>)
    ensures
        number == frame_number_of(name@),
{
    proof {
        reveal_strlit("frame_");
        reveal_strlit(".png");
    }
    let len = name.unicode_len();
    let head = FRAME_PREFIX.unicode_len();
    let tail = FRAME_SUFFIX.unicode_len();
    if len <= head + tail {
        return None;
    }
    if !has_text_at(name, 0, FRAME_PREFIX) {
        return None;
    }
    if !has_text_at(name, len - tail, FRAME_SUFFIX) {
        return None;
    }
    let ghost digits = frame_digits(name@);
    let mut value: u64 = 0;
    let mut i: usize = head;
    while i < len - tail
        invariant
            head <= i <= len - tail,
            len == name@.len(),
            head == FRAME_PREFIX@.len(),
            tail == FRAME_SUFFIX@.len(),
            digits == frame_digits(name@),
            digits.len() == len - tail - head,
            forall|k: int| 0 <= k < i - head ==> is_digit(#[trigger] digits[k]),
            value == digits_value(digits.subrange(0, i - head)),
        decreases len - tail - i,
    {
        let c = name.get_char(i);
        assert(c == digits[i - head]);
        if !('0' <= c && c <= '9') {
            return None;
        }
        let d: u64 = (c as u64) - 48;
        proof {
            assert(digits.subrange(0, i - head + 1).drop_last() == digits.subrange(0, i - head));
            lemma_prefix_value(digits, i - head + 1);
        }
        if value > (u64::MAX - d) / 10 {
            return None;
        }
        value = value * 10 + d;
        i += 1;
    }
    assert(digits.subrange(0, i - head) == digits);
    Some(value)
}

/// Frame `i` plays before frame `j`: it has the lower number, or the same
/// number and the earlier place in the list.
pub open spec fn plays_before(names: Seq<Seq<char>>, i: int, j: int) -> bool {
    let a = frame_number_of(names[i]);
    let b = frame_number_of(names[j]);
    a is Some && b is Some && (a->0 < b->0 || (a->0 == b->0 && i < j))
}

/// `order` lists the places of the frames among `names` in playing
/// order: nothing but frames, every frame, and each before all that play
/// after it, so that none is listed twice.
pub open spec fn is_playing_order(names: Seq<Seq<char>>, order: Seq<usize>) -> bool {
    &&& forall|k: int|
        0 <= k < order.len() ==> (#[trigger] order[k]) < names.len() && frame_number_of(
            names[order[k] as int],
        ) is Some
    &&& forall|i: int|
        0 <= i < names.len() && (#[trigger] frame_number_of(names[i])) is Some ==> order.contains(
            i as usize,
        )
    &&& forall|k: int, l: int|
        0 <= k < l < order.len() ==> plays_before(
            names,
            #[trigger] order[k] as int,
            #[trigger] order[l] as int,
        )
}

/// Two playing orders of one list agree in their first `n` places.
proof fn lemma_orders_agree(names: Seq<Seq<char>>, a: Seq<usize>, b: Seq<usize>, n: int)
    requires
        is_playing_order(names, a),
        is_playing_order(names, b),
        0 <= n <= a.len(),
        n <= b.len(),
    ensures
        forall|j: int| 0 <= j < n ==> a[j] == b[j],
    decreases n,
{
    if n > 0 {
        lemma_orders_agree(names, a, b, n - 1);
        // Each of the two frames in place n - 1 occurs in the other order:
        // not before that place, where the orders agree, and not after
        // it, or the two frames would each play before the other.
        let k = n - 1;
        let m = choose|m: int| 0 <= m < b.len() && b[m] == a[k];
        let w = choose|w: int| 0 <= w < a.len() && a[w] == b[k];
    }
}

/// A list of names has one playing order and no other.
pub proof fn lemma_playing_order_is_unique(names: Seq<Seq<char>>, a: Seq<usize>, b: Seq<usize>)
    requires
        is_playing_order(names, a),
        is_playing_order(names, b),
    ensures
        a == b,
{
    // The orders agree as far as the shorter one goes. A frame of the
    // longer one beyond that occurs in the shorter one too, and so twice
    // in the longer one.
    if a.len() <= b.len() {
        lemma_orders_agree(names, a, b, a.len() as int);
        if a.len() < b.len() {
            let w = choose|w: int| 0 <= w < a.len() && a[w] == b[a.len() as int];
        }
    } else {
        lemma_orders_agree(names, a, b, b.len() as int);
        let w = choose|w: int| 0 <= w < b.len() && b[w] == a[b.len() as int];
    }
}

/// Finds the frames among the entries of a directory and puts them in
/// playing order, whatever order the directory gave them in: by frame
/// number, and by place in the list where two names spell one number.
pub fn playing_order(names: &Vec<String>) -> (order: Vec<usize>)
    ensures
        is_playing_order(texts(names@), order@),
{
    let ghost all = texts(names@);
    let mut order: Vec<usize> = Vec::new();
    let mut keys: Vec<u64> = Vec::new();
    let mut i: usize = 0;
    while i < names.len()
        invariant
            i <= names@.len(),
            all == texts(names@),
            keys@.len() == order@.len(),
            forall|k: int|
                0 <= k < order@.len() ==> (#[trigger] order@[k]) < i && frame_number_of(
                    all[order@[k] as int],
                ) == Some(keys@[k]),
            forall|j: int|
                0 <= j < i && (#[trigger] frame_number_of(all[j])) is Some ==> order@.contains(
                    j as usize,
                ),
            forall|k: int, l: int|
                0 <= k < l < order@.len() ==> plays_before(
                    all,
                    #[trigger] order@[k] as int,
                    #[trigger] order@[l] as int,
                ),
        decreases names@.len() - i,
    {
        match frame_number(names[i].as_str()) {
            Some(number) => {
                let mut at: usize = 0;
                while at < keys.len() && keys[at] <= number
                    invariant
                        at <= keys@.len(),
                        forall|k: int| 0 <= k < at ==> (#[trigger] keys@[k]) <= number,
                    decreases keys@.len() - at,
                {
                    at += 1;
                }
                let ghost old_order = order@;
                let ghost old_keys = keys@;
                order.insert(at, i);
                keys.insert(at, number);
                proof {
                    assert forall|k: int| 0 <= k < order@.len() implies (#[trigger] order@[k]) < i
                        + 1 && frame_number_of(all[order@[k] as int]) == Some(keys@[k]) by {}
                    assert forall|j: int|
                        0 <= j < i + 1 && (#[trigger] frame_number_of(
                            all[j],
                        )) is Some implies order@.contains(j as usize) by {
                        if j < i {
                            let k = choose|k: int|
                                0 <= k < old_order.len() && old_order[k] == j as usize;
                            if k < at {
                                assert(order@[k] == j as usize);
                            } else {
                                assert(order@[k + 1] == j as usize);
                            }
                        } else {
                            assert(order@[at as int] == j as usize);
                        }
                    }
                    assert forall|k: int, l: int| 0 <= k < l < order@.len() implies plays_before(
                        all,
                        #[trigger] order@[k] as int,
                        #[trigger] order@[l] as int,
                    ) by {
                        // What followed the place of insertion plays after
                        // the frame that stood there, which plays after
                        // the new one.
                        if k == at && at < l - 1 {
                            assert(plays_before(
                                all,
                                old_order[at as int] as int,
                                old_order[l - 1] as int,
                            ));
                        }
                    }
                }
            },
            None => {},
        }
        i += 1;
    }
    order
}

} // verus!
