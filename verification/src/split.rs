//! Lists written as one text: items with a separator between them.

use vstd::prelude::*;
use vstd::string::*;

verus! {

/// The index of the first `separator` in `text`, or the length of `text` where
/// there is none.
pub open spec fn first_separator(text: Seq<char>, separator: char) -> int
    decreases text.len(),
{
    if text.len() == 0 || text[0] == separator {
        0
    } else {
        1 + first_separator(text.drop_first(), separator)
    }
}

/// The items of `text`: what stands before the first separator, between each
/// separator and the next, and behind the last. A text without separator is one
/// item, the empty text too.
pub open spec fn split_spec(text: Seq<char>, separator: char) -> Seq<Seq<char>>
    decreases text.len(),
{
    let i = first_separator(text, separator);
    if 0 <= i < text.len() {
        seq![text.take(i)] + split_spec(text.skip(i + 1), separator)
    } else {
        seq![text]
    }
}

/// The items of `items` with `separator` between them.
pub open spec fn join_spec(items: Seq<Seq<char>>, separator: char) -> Seq<char>
    decreases items.len(),
{
    if items.len() == 0 {
        Seq::empty()
    } else if items.len() == 1 {
        items[0]
    } else {
        items[0] + seq![separator] + join_spec(items.drop_first(), separator)
    }
}

/// The first separator is where the first separator is.
pub proof fn lemma_first_separator(text: Seq<char>, separator: char, at: int)
    requires
        0 <= at <= text.len(),
        forall|k: int| 0 <= k < at ==> text[k] != separator,
        at < text.len() ==> text[at] == separator,
    ensures
        first_separator(text, separator) == at,
    decreases at,
{
    if at > 0 {
        let tail = text.drop_first();
        assert forall|k: int| 0 <= k < at - 1 implies tail[k] != separator by {}
        lemma_first_separator(tail, separator, at - 1);
    }
}

/// The first separator lies within the text, with no separator before it.
pub proof fn lemma_first_separator_bounds(text: Seq<char>, separator: char)
    ensures
        0 <= first_separator(text, separator) <= text.len(),
        forall|k: int| 0 <= k < first_separator(text, separator) ==> text[k] != separator,
        first_separator(text, separator) < text.len() ==> text[first_separator(
            text,
            separator,
        )] == separator,
    decreases text.len(),
{
    if text.len() > 0 && text[0] != separator {
        let tail = text.drop_first();
        lemma_first_separator_bounds(tail, separator);
        assert forall|k: int| 0 <= k < first_separator(text, separator) implies text[k]
            != separator by {
            if k > 0 {
                assert(text[k] == tail[k - 1]);
            }
        }
    }
}

/// Splitting gives at least one item, none with a separator in it, and joining
/// them gives the text back.
pub proof fn lemma_join_of_split(text: Seq<char>, separator: char)
    ensures
        split_spec(text, separator).len() >= 1,
        join_spec(split_spec(text, separator), separator) == text,
        forall|i: int, k: int|
            0 <= i < split_spec(text, separator).len() && 0 <= k < split_spec(
                text,
                separator,
            )[i].len() ==> split_spec(text, separator)[i][k] != separator,
    decreases text.len(),
{
    let i = first_separator(text, separator);
    lemma_first_separator_bounds(text, separator);
    let parts = split_spec(text, separator);
    if i < text.len() {
        let rest = text.skip(i + 1);
        lemma_join_of_split(rest, separator);
        let more = split_spec(rest, separator);
        assert(parts.drop_first() =~= more);
        assert forall|a: int, k: int| 0 <= a < parts.len() && 0 <= k < parts[a].len() implies
            parts[a][k] != separator by {}
    } else {
        assert forall|a: int, k: int| 0 <= a < parts.len() && 0 <= k < parts[a].len() implies
            parts[a][k] != separator by {}
    }
}

/// Splits `text` at every `separator`.
pub fn split(text: &str, separator: char) -> (items: Vec<String>)
    ensures
        items.deep_view() == split_spec(text@, separator),
        items.len() >= 1,
{
    let n = text.unicode_len();
    let mut items: Vec<String> = Vec::new();
    let mut start: usize = 0;
    let mut i: usize = 0;
    assert(text@.skip(0) =~= text@);
    for c in it: text.chars()
        invariant
            n == text@.len(),
            it.seq() == text@,
            i == it.index(),
            start <= i <= n,
            forall|k: int| start <= k < i ==> text@[k] != separator,
            split_spec(text@, separator) == items.deep_view() + split_spec(
                text@.skip(start as int),
                separator,
            ),
    {
        if c == separator {
            let item = text.substring_char(start, i).to_owned();
            proof {
                let rest = text@.skip(start as int);
                assert forall|k: int| 0 <= k < i - start implies rest[k] != separator by {}
                lemma_first_separator(rest, separator, i - start);
                assert(rest.take(i - start) =~= text@.subrange(start as int, i as int));
                assert(rest.skip(i - start + 1) =~= text@.skip(i + 1));
            }
            let ghost before = items.deep_view();
            items.push(item);
            assert(items.deep_view() =~= before.push(item@));
            start = i + 1;
        }
        i += 1;
    }
    let last = text.substring_char(start, n).to_owned();
    proof {
        let rest = text@.skip(start as int);
        assert forall|k: int| 0 <= k < rest.len() implies rest[k] != separator by {}
        lemma_first_separator(rest, separator, rest.len() as int);
    }
    items.push(last);
    items
}

} // verus!
