//! Splitting a text into the fields that a delimiter separates.

use vstd::prelude::*;
use vstd::std_specs::iter::IteratorSpec;
use vstd::utf8::{encode_utf8, encode_utf8_decode_utf8};

verus! {

/// The places at which `delimiter` stands in `text`, in rising order.
pub open spec fn delimiter_positions(text: Seq<char>, delimiter: char) -> Seq<int>
    decreases text.len(),
{
    if text.len() == 0 {
        Seq::empty()
    } else {
        let before = delimiter_positions(text.drop_last(), delimiter);
        if text.last() == delimiter {
            before.push(text.len() - 1)
        } else {
            before
        }
    }
}

/// Where field `k` begins: at the start of the text, or just behind cut `k - 1`.
pub open spec fn field_start(cuts: Seq<int>, k: int) -> int {
    if k == 0 {
        0
    } else {
        cuts[k - 1] + 1
    }
}

/// Where field `k` ends: at cut `k`, or at the end of the text.
pub open spec fn field_end(cuts: Seq<int>, text_len: int, k: int) -> int {
    if k == cuts.len() {
        text_len
    } else {
        cuts[k]
    }
}

/// The fields of `text`: the stretches between its delimiters, empty ones
/// included. A text with `n` delimiters has `n + 1` fields.
pub open spec fn split_fields(text: Seq<char>, delimiter: char) -> Seq<Seq<char>> {
    let cuts = delimiter_positions(text, delimiter);
    Seq::new(
        cuts.len() + 1,
        |k: int| text.subrange(field_start(cuts, k), field_end(cuts, text.len() as int, k)),
    )
}

/// `cuts` holds the numbers of `positions`, one for one.
pub open spec fn cuts_are(cuts: Seq<usize>, positions: Seq<int>) -> bool {
    &&& cuts.len() == positions.len()
    &&& forall|k: int| 0 <= k < cuts.len() ==> #[trigger] cuts[k] as int == positions[k]
}

/// Every position is an index of the text that holds the delimiter, and the
/// positions rise strictly.
pub proof fn lemma_positions_in_order(text: Seq<char>, delimiter: char)
    ensures
        delimiter_positions(text, delimiter).len() <= text.len(),
        forall|k: int|
            0 <= k < delimiter_positions(text, delimiter).len() ==> {
                let p = #[trigger] delimiter_positions(text, delimiter)[k];
                0 <= p < text.len() && text[p] == delimiter
            },
        forall|j: int, k: int|
            0 <= j < k < delimiter_positions(text, delimiter).len() ==> delimiter_positions(
                text,
                delimiter,
            )[j] < delimiter_positions(text, delimiter)[k],
    decreases text.len(),
{
    if text.len() > 0 {
        lemma_positions_in_order(text.drop_last(), delimiter);
    }
}

/// Every index of the text that holds the delimiter is among the positions.
pub proof fn lemma_positions_complete(text: Seq<char>, delimiter: char, i: int)
    requires
        0 <= i < text.len(),
        text[i] == delimiter,
    ensures
        delimiter_positions(text, delimiter).contains(i),
    decreases text.len(),
{
    let cuts = delimiter_positions(text, delimiter);
    if i == text.len() - 1 {
        assert(cuts[cuts.len() - 1] == i);
    } else {
        lemma_positions_complete(text.drop_last(), delimiter, i);
        let before = delimiter_positions(text.drop_last(), delimiter);
        let k = choose|k: int| 0 <= k < before.len() && before[k] == i;
        assert(cuts[k] == i);
    }
}

/// No field holds the delimiter.
pub proof fn lemma_fields_hold_no_delimiter(text: Seq<char>, delimiter: char, k: int, i: int)
    requires
        0 <= k < split_fields(text, delimiter).len(),
        0 <= i < split_fields(text, delimiter)[k].len(),
    ensures
        split_fields(text, delimiter)[k][i] != delimiter,
{
    let cuts = delimiter_positions(text, delimiter);
    lemma_positions_in_order(text, delimiter);
    let j = field_start(cuts, k) + i;
    if text[j] == delimiter {
        lemma_positions_complete(text, delimiter, j);
    }
}

/// The fields in order, with the delimiter between each two of them.
pub open spec fn join_fields(fields: Seq<Seq<char>>, delimiter: char) -> Seq<char>
    decreases fields.len(),
{
    if fields.len() == 0 {
        Seq::empty()
    } else if fields.len() == 1 {
        fields[0]
    } else {
        join_fields(fields.drop_last(), delimiter).push(delimiter) + fields.last()
    }
}

/// The fields of a text, joined by the delimiter, give the text again.
pub proof fn lemma_fields_joined_give_text(text: Seq<char>, delimiter: char)
    ensures
        join_fields(split_fields(text, delimiter), delimiter) == text,
    decreases text.len(),
{
    let fields = split_fields(text, delimiter);
    let cuts = delimiter_positions(text, delimiter);
    lemma_positions_in_order(text, delimiter);
    if text.len() > 0 {
        let front = text.drop_last();
        let front_fields = split_fields(front, delimiter);
        lemma_positions_in_order(front, delimiter);
        lemma_fields_joined_give_text(front, delimiter);
        if text.last() == delimiter {
            // one more field, an empty one, behind those of the front
            assert forall|k: int| 0 <= k < front_fields.len() implies fields[k]
                == front_fields[k] by {}
            assert(fields.drop_last() =~= front_fields);
        } else if cuts.len() > 0 {
            // the same fields, the last of them one character longer
            assert forall|k: int| 0 <= k < fields.len() - 1 implies fields[k]
                == front_fields[k] by {}
            assert(fields.drop_last() =~= front_fields.drop_last());
            assert(join_fields(fields, delimiter) =~= join_fields(front_fields, delimiter).push(
                text.last(),
            ));
        }
    }
}

/// A text without the delimiter has no cut.
pub proof fn lemma_no_delimiter_no_cut(text: Seq<char>, delimiter: char)
    requires
        forall|i: int| 0 <= i < text.len() ==> text[i] != delimiter,
    ensures
        delimiter_positions(text, delimiter) == Seq::<int>::empty(),
    decreases text.len(),
{
    if text.len() > 0 {
        lemma_no_delimiter_no_cut(text.drop_last(), delimiter);
    }
}

/// A tail without the delimiter adds no cut.
pub proof fn lemma_tail_without_delimiter(head: Seq<char>, tail: Seq<char>, delimiter: char)
    requires
        forall|i: int| 0 <= i < tail.len() ==> tail[i] != delimiter,
    ensures
        delimiter_positions(head + tail, delimiter) == delimiter_positions(head, delimiter),
    decreases tail.len(),
{
    if tail.len() > 0 {
        lemma_tail_without_delimiter(head, tail.drop_last(), delimiter);
        assert((head + tail).drop_last() =~= head + tail.drop_last());
    }
}

/// A text of fields without the delimiter, joined by it, splits into those
/// fields again. Stated for three fields.
pub proof fn lemma_split_of_three(
    first: Seq<char>,
    second: Seq<char>,
    third: Seq<char>,
    delimiter: char,
)
    requires
        forall|i: int| 0 <= i < first.len() ==> first[i] != delimiter,
        forall|i: int| 0 <= i < second.len() ==> second[i] != delimiter,
        forall|i: int| 0 <= i < third.len() ==> third[i] != delimiter,
    ensures
        split_fields(first.push(delimiter) + second.push(delimiter) + third, delimiter) == seq![
            first,
            second,
            third,
        ],
{
    let a = first.push(delimiter);
    let b = a + second;
    let c = b.push(delimiter);
    let text = c + third;
    assert(text =~= first.push(delimiter) + second.push(delimiter) + third);
    lemma_no_delimiter_no_cut(first, delimiter);
    assert(a.drop_last() =~= first);
    lemma_tail_without_delimiter(a, second, delimiter);
    assert(c.drop_last() =~= b);
    lemma_tail_without_delimiter(c, third, delimiter);
    let fields = split_fields(text, delimiter);
    assert(fields[0] =~= first);
    assert(fields[1] =~= second);
    assert(fields[2] =~= third);
}

/// A text has no more characters than its UTF-8 form has bytes.
proof fn lemma_chars_within_bytes(chars: Seq<char>)
    ensures
        chars.len() <= encode_utf8(chars).len(),
    decreases chars.len(),
{
    if chars.len() > 0 {
        lemma_chars_within_bytes(chars.drop_first());
    }
}

/// Finds every place of `delimiter` in `text`, in one pass.
pub fn find_delimiters(text: &str, delimiter: char) -> (cuts: Vec<usize>)
    ensures
        cuts_are(cuts@, delimiter_positions(text@, delimiter)),
{
    // A text has no more characters than bytes, so the count below fits.
    let byte_len = text.as_bytes().len();
    proof {
        lemma_chars_within_bytes(text@);
    }
    let mut cuts: Vec<usize> = Vec::new();
    let mut i: usize = 0;
    let mut it = text.chars();
    loop
        invariant
            it.obeys_prophetic_iter_laws(),
            i <= text@.len() <= usize::MAX,
            it.remaining() == text@.skip(i as int),
            cuts_are(cuts@, delimiter_positions(text@.take(i as int), delimiter)),
        ensures
            i == text@.len(),
        decreases text@.len() - i,
    {
        match it.next() {
            Some(c) => {
                proof {
                    assert(text@.take(i + 1).drop_last() =~= text@.take(i as int));
                }
                if c == delimiter {
                    cuts.push(i);
                }
                i = i + 1;
            },
            None => {
                break;
            },
        }
    }
    cuts
}

/// Cuts field `k` out of `text`, whose delimiters stand at `cuts`.
pub fn field<'a>(text: &'a str, delimiter: char, cuts: &Vec<usize>, k: usize) -> (part: &'a str)
    requires
        cuts_are(cuts@, delimiter_positions(text@, delimiter)),
        k <= cuts.len(),
    ensures
        part@ == split_fields(text@, delimiter)[k as int],
{
    proof {
        lemma_positions_in_order(text@, delimiter);
    }
    let len = text.unicode_len();
    let from: usize = if k == 0 {
        0
    } else {
        cuts[k - 1] + 1
    };
    let to: usize = if k == cuts.len() {
        len
    } else {
        cuts[k]
    };
    text.substring_char(from, to)
}

/// Whether two texts hold the same characters.
pub fn same_text(left: &str, right: &str) -> (same: bool)
    ensures
        same == (left@ == right@),
{
    let a = left.as_bytes();
    let b = right.as_bytes();
    if a.len() != b.len() {
        return false;
    }
    let mut i: usize = 0;
    while i < a.len()
        invariant
            i <= a.len(),
            a.len() == b.len(),
            a@ == encode_utf8(left@),
            b@ == encode_utf8(right@),
            forall|j: int| 0 <= j < i ==> a@[j] == b@[j],
        decreases a.len() - i,
    {
        if a[i] != b[i] {
            return false;
        }
        i = i + 1;
    }
    proof {
        assert(a@ =~= b@);
        encode_utf8_decode_utf8(left@);
        encode_utf8_decode_utf8(right@);
    }
    true
}

} // verus!
