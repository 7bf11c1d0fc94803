//! The comma-separated lists of the query string: `output=sound,wav` names
//! the two entries `sound` and `wav`.

use vstd::prelude::*;
use vstd::string::{StrSliceExecFns, StringExecFns};

verus! {

/// The characters of each string of a list.
pub open spec fn texts_of(items: Seq<String>) -> Seq<Seq<char>> {
    Seq::new(items.len(), |i: int| items[i]@)
}

/// The entries of a comma-separated list: the stretches of text between
/// commas, empty ones included. The empty text has one entry, which is
/// empty.
pub open spec fn split_commas(text: Seq<char>) -> Seq<Seq<char>>
    decreases text.len(),
{
    if text.len() == 0 {
        seq![Seq::empty()]
    } else {
        let before = split_commas(text.drop_last());
        if text.last() == ',' {
            before.push(Seq::empty())
        } else {
            before.update(before.len() - 1, before.last().push(text.last()))
        }
    }
}

/// The entries written one after the other with a comma between
/// neighbours.
pub open spec fn join_commas(items: Seq<Seq<char>>) -> Seq<char>
    decreases items.len(),
{
    if items.len() == 0 {
        Seq::empty()
    } else if items.len() == 1 {
        items[0]
    } else {
        join_commas(items.drop_last()) + seq![','] + items.last()
    }
}

/// Whether no entry holds a comma.
pub open spec fn comma_free(items: Seq<Seq<char>>) -> bool {
    forall|i: int, j: int| 0 <= i < items.len() && 0 <= j < items[i].len() ==> items[i][j] != ','
}

/// A list has at least one entry.
pub proof fn lemma_split_is_not_empty(text: Seq<char>)
    ensures
        split_commas(text).len() > 0,
    decreases text.len(),
{
    if text.len() > 0 {
        lemma_split_is_not_empty(text.drop_last());
    }
}

/// Joining the entries of a text gives the text back.
pub proof fn lemma_join_of_split(text: Seq<char>)
    ensures
        join_commas(split_commas(text)) == text,
    decreases text.len(),
{
    if text.len() == 0 {
        assert(join_commas(split_commas(text)) =~= text);
    } else {
        let front = text.drop_last();
        let before = split_commas(front);
        lemma_split_is_not_empty(front);
        lemma_join_of_split(front);
        let after = split_commas(text);
        if text.last() == ',' {
            assert(after.drop_last() =~= before);
            assert(join_commas(after) =~= text);
        } else if before.len() == 1 {
            assert(text =~= front.push(text.last()));
            assert(after[0] == before[0].push(text.last()));
            assert(join_commas(after) =~= text);
        } else {
            assert(text =~= front.push(text.last()));
            assert(after.drop_last() =~= before.drop_last());
            assert(join_commas(after) =~= text);
        }
    }
}

/// Text without a comma, written after a list, lengthens the last entry.
pub proof fn lemma_split_of_extended(text: Seq<char>, tail: Seq<char>)
    requires
        forall|j: int| 0 <= j < tail.len() ==> tail[j] != ',',
    ensures
        split_commas(text).len() > 0,
        split_commas(text + tail) == split_commas(text).update(
            split_commas(text).len() - 1,
            split_commas(text).last() + tail,
        ),
    decreases tail.len(),
{
    lemma_split_is_not_empty(text);
    let entries = split_commas(text);
    if tail.len() == 0 {
        assert(text + tail =~= text);
        assert(entries.last() + tail =~= entries.last());
        assert(entries.update(entries.len() - 1, entries.last()) =~= entries);
    } else {
        let shorter = tail.drop_last();
        lemma_split_of_extended(text, shorter);
        assert((text + tail).drop_last() =~= text + shorter);
        assert((text + tail).last() == tail.last());
        assert(entries.last() + tail =~= (entries.last() + shorter).push(tail.last()));
        assert(split_commas(text + tail) =~= entries.update(
            entries.len() - 1,
            entries.last() + tail,
        ));
    }
}

/// Splitting the joined form of a list gives the list back, provided that
/// the list has an entry and no entry holds a comma.
pub proof fn lemma_split_of_join(items: Seq<Seq<char>>)
    requires
        items.len() > 0,
        comma_free(items),
    ensures
        split_commas(join_commas(items)) == items,
    decreases items.len(),
{
    let last = items.last();
    assert forall|j: int| 0 <= j < last.len() implies last[j] != ',' by {
        assert(items[items.len() - 1][j] != ',');
    }
    if items.len() == 1 {
        lemma_split_of_extended(Seq::empty(), last);
        assert(Seq::<char>::empty() + last =~= last);
        assert(split_commas(Seq::<char>::empty()) =~= seq![Seq::<char>::empty()]);
        assert(Seq::<char>::empty() + last =~= last);
        assert(split_commas(last) =~= items);
    } else {
        let front = items.drop_last();
        assert(comma_free(front)) by {
            assert forall|i: int, j: int|
                0 <= i < front.len() && 0 <= j < front[i].len() implies front[i][j] != ',' by {
                assert(items[i][j] != ',');
            }
        }
        lemma_split_of_join(front);
        let joined = join_commas(front) + seq![','];
        assert(joined.drop_last() =~= join_commas(front));
        assert(split_commas(joined) =~= front.push(Seq::empty()));
        lemma_split_of_extended(joined, last);
        assert(Seq::<char>::empty() + last =~= last);
        assert(split_commas(joined + last) =~= items);
    }
}

/// Splits a comma-separated list into its entries.
pub fn split_list(text: &str) -> (items: Vec<String>)
    ensures
        texts_of(items@) == split_commas(text@),
{
    let mut items: Vec<String> = Vec::new();
    let length: usize = text.unicode_len();
    let mut start: usize = 0;
    let mut i: usize = 0;
    assert(text@.take(0) =~= Seq::<char>::empty());
    assert(texts_of(items@).push(text@.subrange(0, 0)) =~= seq![Seq::<char>::empty()]);
    while i < length
        invariant
            length == text@.len(),
            start <= i <= length,
            split_commas(text@.take(i as int)) == texts_of(items@).push(
                text@.subrange(start as int, i as int),
            ),
        decreases length - i,
    {
        let ghost seen = text@.take(i as int);
        let ghost next = text@.take(i + 1);
        let ghost done = texts_of(items@);
        let c = text.get_char(i);
        proof {
            assert(next.drop_last() =~= seen);
            assert(next.last() == c);
        }
        if c == ',' {
            let ghost begun = start as int;
            items.push(String::from_str(text.substring_char(start, i)));
            start = i + 1;
            proof {
                assert(texts_of(items@) =~= done.push(text@.subrange(begun, i as int)));
                assert(text@.subrange(start as int, i + 1) =~= Seq::<char>::empty());
                assert(split_commas(next) =~= texts_of(items@).push(
                    text@.subrange(start as int, i + 1),
                ));
            }
        } else {
            proof {
                assert(text@.subrange(start as int, i + 1) =~= text@.subrange(
                    start as int,
                    i as int,
                ).push(c));
                assert(split_commas(next) =~= done.push(text@.subrange(start as int, i + 1)));
            }
        }
        i += 1;
    }
    let ghost done = texts_of(items@);
    items.push(String::from_str(text.substring_char(start, length)));
    proof {
        assert(text@.take(length as int) =~= text@);
        assert(texts_of(items@) =~= done.push(text@.subrange(start as int, length as int)));
    }
    items
}

/// Writes the entries one after the other with a comma between neighbours.
pub fn join_list(items: &Vec<String>) -> (text: String)
    ensures
        text@ == join_commas(texts_of(items@)),
{
    let mut text = String::new();
    let mut i: usize = 0;
    assert(texts_of(items@).take(0) =~= Seq::<Seq<char>>::empty());
    while i < items.len()
        invariant
            i <= items.len(),
            text@ == join_commas(texts_of(items@).take(i as int)),
        decreases items.len() - i,
    {
        let ghost seen = texts_of(items@).take(i as int);
        let ghost next = texts_of(items@).take(i + 1);
        proof {
            assert(next.drop_last() =~= seen);
            assert(next.last() == items@[i as int]@);
            reveal_strlit(",");
            assert(","@ =~= seq![',']);
        }
        if i > 0 {
            text.append(",");
        } else {
            assert(seen =~= Seq::<Seq<char>>::empty());
            assert(Seq::<char>::empty() + items@[i as int]@ =~= items@[i as int]@);
        }
        text.append(items[i].as_str());
        i += 1;
    }
    assert(texts_of(items@).take(items.len() as int) =~= texts_of(items@));
    text
}

} // verus!
