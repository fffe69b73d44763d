//! Ordering a story list by publish date.
//!
//! Dates are compared as text, byte by byte: sortable dates of the form
//! `YYYY-MM-DD HH:MM:SS` then stand in order of time. The sort is stable:
//! stories with the same date keep the order in which they were received.

use crate::app::copy_story;
use crate::app::stories_view;
use crate::app::NewsStory;
use crate::app::SortOrder;
use crate::app::StoryView;
use vstd::prelude::*;
use vstd::set_lib::lemma_int_range;
use vstd::set_lib::lemma_subset_equality;
use vstd::set_lib::set_int_range;
use vstd::string::StringSliceAdditionalSpecFns;
use vstd::utf8::encode_utf8;

verus! {

/// Whether one byte string comes no later than another in dictionary order.
pub open spec fn bytes_le(a: Seq<u8>, b: Seq<u8>) -> bool
    decreases a.len(),
{
    if a.len() == 0 {
        true
    } else if b.len() == 0 {
        false
    } else if a[0] != b[0] {
        a[0] < b[0]
    } else {
        bytes_le(a.skip(1), b.skip(1))
    }
}

/// Whether one text comes no later than another, by the dictionary order
/// of their UTF-8 bytes.
pub open spec fn text_le(a: Seq<char>, b: Seq<char>) -> bool {
    bytes_le(encode_utf8(a), encode_utf8(b))
}

/// Whether story `a` may stand before story `b` in a list in the given
/// order. In the order of the feed any story may stand before any other.
pub open spec fn may_precede(order: SortOrder, a: StoryView, b: StoryView) -> bool {
    match order {
        SortOrder::Default => true,
        SortOrder::DateNewest => text_le(b.pub_date, a.pub_date),
        SortOrder::DateOldest => text_le(a.pub_date, b.pub_date),
    }
}

/// Whether `sorted` is `stories` put in the given order by a stable sort,
/// where `places[i]` is the place in `stories` of the story at place `i` of
/// `sorted`: every story is used once, the list is in order, and stories
/// that may stand either way round stand as they did. In the order of the
/// feed this leaves the list as it is.
pub open spec fn is_stable_sort(
    order: SortOrder,
    stories: Seq<StoryView>,
    sorted: Seq<StoryView>,
    places: Seq<int>,
) -> bool {
    &&& sorted.len() == stories.len()
    &&& places.len() == stories.len()
    &&& forall|i: int|
        0 <= i < sorted.len() ==> 0 <= #[trigger] places[i] < stories.len() && sorted[i]
            == stories[places[i]]
    &&& forall|i: int, j: int|
        0 <= i < j < sorted.len() ==> #[trigger] places[i] != #[trigger] places[j]
    &&& forall|i: int, j: int|
        0 <= i < j < sorted.len() ==> may_precede(order, #[trigger] sorted[i], #[trigger] sorted[j])
    &&& forall|i: int, j: int|
        0 <= i < j < sorted.len() && may_precede(order, #[trigger] sorted[j], #[trigger] sorted[i])
            ==> places[i] < places[j]
}

/// Of two byte strings, one comes no later than the other.
pub proof fn lemma_bytes_le_total(a: Seq<u8>, b: Seq<u8>)
    ensures
        bytes_le(a, b) || bytes_le(b, a),
    decreases a.len(),
{
    if a.len() > 0 && b.len() > 0 && a[0] == b[0] {
        lemma_bytes_le_total(a.skip(1), b.skip(1));
    }
}

/// The dictionary order is transitive.
pub proof fn lemma_bytes_le_transitive(a: Seq<u8>, b: Seq<u8>, c: Seq<u8>)
    requires
        bytes_le(a, b),
        bytes_le(b, c),
    ensures
        bytes_le(a, c),
    decreases a.len(),
{
    if a.len() > 0 && b.len() > 0 && c.len() > 0 && a[0] == b[0] && b[0] == c[0] {
        lemma_bytes_le_transitive(a.skip(1), b.skip(1), c.skip(1));
    }
}

/// Of two stories, one may stand before the other.
pub proof fn lemma_may_precede_total(order: SortOrder, a: StoryView, b: StoryView)
    ensures
        may_precede(order, a, b) || may_precede(order, b, a),
{
    lemma_bytes_le_total(encode_utf8(a.pub_date), encode_utf8(b.pub_date));
}

/// If `a` may stand before `b` and `b` before `c`, then `a` may stand
/// before `c`.
pub proof fn lemma_may_precede_transitive(
    order: SortOrder,
    a: StoryView,
    b: StoryView,
    c: StoryView,
)
    requires
        may_precede(order, a, b),
        may_precede(order, b, c),
    ensures
        may_precede(order, a, c),
{
    match order {
        SortOrder::Default => {},
        SortOrder::DateNewest => {
            lemma_bytes_le_transitive(
                encode_utf8(c.pub_date),
                encode_utf8(b.pub_date),
                encode_utf8(a.pub_date),
            );
        },
        SortOrder::DateOldest => {
            lemma_bytes_le_transitive(
                encode_utf8(a.pub_date),
                encode_utf8(b.pub_date),
                encode_utf8(c.pub_date),
            );
        },
    }
}

/// Whether text `a` comes no later than text `b`.
pub fn text_no_later(a: &str, b: &str) -> (le: bool)
    ensures
        le == text_le(a@, b@),
{
    let x = a.as_bytes();
    let y = b.as_bytes();
    let mut i: usize = 0;
    assert(x@.skip(0) =~= x@);
    assert(y@.skip(0) =~= y@);
    while i < x.len() && i < y.len()
        invariant
            x@ == a.spec_bytes(),
            y@ == b.spec_bytes(),
            i <= x@.len(),
            i <= y@.len(),
            bytes_le(x@, y@) == bytes_le(x@.skip(i as int), y@.skip(i as int)),
        decreases x@.len() - i,
    {
        assert(x@.skip(i as int).skip(1) =~= x@.skip(i + 1));
        assert(y@.skip(i as int).skip(1) =~= y@.skip(i + 1));
        assert(x@.skip(i as int)[0] == x@[i as int]);
        assert(y@.skip(i as int)[0] == y@[i as int]);
        if x[i] != y[i] {
            return x[i] < y[i];
        }
        i += 1;
    }
    i >= x.len()
}

/// Whether story `a` may stand before story `b` in the given order.
pub fn precedes(order: SortOrder, a: &NewsStory, b: &NewsStory) -> (yes: bool)
    ensures
        yes == may_precede(order, a@, b@),
{
    match order {
        SortOrder::Default => true,
        SortOrder::DateNewest => text_no_later(b.pub_date.as_str(), a.pub_date.as_str()),
        SortOrder::DateOldest => text_no_later(a.pub_date.as_str(), b.pub_date.as_str()),
    }
}

/// Puts a story list in the given order by a stable sort.
pub fn sort_stories(stories: &[NewsStory], order: SortOrder) -> (sorted: Vec<NewsStory>)
    ensures
        exists|places: Seq<int>|
            is_stable_sort(order, stories_view(stories@), stories_view(sorted@), places),
{
    let ghost input = stories_view(stories@);
    let mut sorted: Vec<NewsStory> = Vec::new();
    let ghost mut places: Seq<int> = Seq::empty();
    let mut i: usize = 0;
    while i < stories.len()
        invariant
            i <= stories@.len(),
            input == stories_view(stories@),
            sorted@.len() == i,
            places.len() == i,
            forall|k: int|
                0 <= k < i ==> 0 <= #[trigger] places[k] < i && sorted@[k]@ == input[places[k]],
            forall|k: int, l: int| 0 <= k < l < i ==> #[trigger] places[k] != #[trigger] places[l],
            forall|k: int, l: int|
                0 <= k < l < i ==> may_precede(order, #[trigger] sorted@[k]@, #[trigger] sorted@[l]@),
            forall|k: int, l: int|
                0 <= k < l < i && may_precede(order, #[trigger] sorted@[l]@, #[trigger] sorted@[k]@)
                    ==> places[k] < places[l],
        decreases stories@.len() - i,
    {
        let story = &stories[i];
        let mut p: usize = 0;
        while p < sorted.len() && precedes(order, &sorted[p], story)
            invariant
                p <= sorted@.len(),
                forall|k: int| 0 <= k < p ==> may_precede(order, #[trigger] sorted@[k]@, story@),
            decreases sorted@.len() - p,
        {
            p += 1;
        }
        let ghost before = sorted@;
        let ghost old_places = places;
        let record = copy_story(story);
        sorted.insert(p, record);
        proof {
            places = old_places.insert(p as int, i as int);
            let after = sorted@;
            assert(after.len() == i + 1);
            // What stood from place `p` on comes strictly after the new story.
            assert forall|k: int| p <= k < i implies !may_precede(
                order,
                #[trigger] before[k]@,
                story@,
            ) by {
                if k > p && may_precede(order, before[k]@, story@) {
                    lemma_may_precede_transitive(order, before[p as int]@, before[k]@, story@);
                }
            }
            assert forall|k: int| p <= k < i implies may_precede(
                order,
                story@,
                #[trigger] before[k]@,
            ) by {
                lemma_may_precede_total(order, story@, before[k]@);
            }
            assert forall|k: int| 0 <= k < i + 1 implies 0 <= #[trigger] places[k] < i + 1
                && after[k]@ == input[places[k]] by {
                if k < p {
                    assert(after[k] == before[k]);
                    assert(places[k] == old_places[k]);
                } else if k == p {
                    assert(after[k]@ == story@);
                    assert(places[k] == i);
                } else {
                    assert(after[k] == before[k - 1]);
                    assert(places[k] == old_places[k - 1]);
                }
            }
            assert forall|k: int, l: int| 0 <= k < l < i + 1 implies #[trigger] places[k]
                != #[trigger] places[l] by {
                let pk = if k < p {
                    k
                } else {
                    k - 1
                };
                let pl = if l < p {
                    l
                } else {
                    l - 1
                };
                if k != p && l != p {
                    assert(places[k] == old_places[pk]);
                    assert(places[l] == old_places[pl]);
                }
            }
            assert forall|k: int, l: int| 0 <= k < l < i + 1 implies may_precede(
                order,
                #[trigger] after[k]@,
                #[trigger] after[l]@,
            ) by {
                if l < p {
                    assert(after[k] == before[k] && after[l] == before[l]);
                } else if l == p {
                    assert(after[k] == before[k]);
                } else if k == p {
                    assert(after[l] == before[l - 1]);
                } else if k < p {
                    assert(after[k] == before[k] && after[l] == before[l - 1]);
                } else {
                    assert(after[k] == before[k - 1] && after[l] == before[l - 1]);
                }
            }
            assert forall|k: int, l: int|
                0 <= k < l < i + 1 && may_precede(
                    order,
                    #[trigger] after[l]@,
                    #[trigger] after[k]@,
                ) implies places[k] < places[l] by {
                if l < p {
                    assert(after[k] == before[k] && after[l] == before[l]);
                    assert(places[k] == old_places[k] && places[l] == old_places[l]);
                } else if l == p {
                    assert(places[k] == old_places[k]);
                } else if k == p {
                    assert(after[l] == before[l - 1]);
                } else if k < p {
                    assert(after[k] == before[k] && after[l] == before[l - 1]);
                    assert(places[k] == old_places[k] && places[l] == old_places[l - 1]);
                } else {
                    assert(after[k] == before[k - 1] && after[l] == before[l - 1]);
                    assert(places[k] == old_places[k - 1] && places[l] == old_places[l - 1]);
                }
            }
        }
        i += 1;
    }
    proof {
        let output = stories_view(sorted@);
        assert(is_stable_sort(order, input, output, places));
    }
    sorted
}

/// In the order of the feed, sorting leaves the list as it is.
pub proof fn lemma_feed_order_is_kept(
    stories: Seq<StoryView>,
    sorted: Seq<StoryView>,
    places: Seq<int>,
)
    requires
        is_stable_sort(SortOrder::Default, stories, sorted, places),
    ensures
        sorted == stories,
{
    let n = stories.len() as int;
    assert forall|i: int, j: int| 0 <= i < j < n implies #[trigger] places[i]
        < #[trigger] places[j] by {
        assert(may_precede(SortOrder::Default, sorted[j], sorted[i]));
    }
    lemma_rising_places(n, places);
    assert forall|i: int| 0 <= i < n implies sorted[i] == stories[i] by {
        assert(places[i] == i);
    }
    assert(sorted =~= stories);
}

/// Places that rise strictly and stay below their number are each its own
/// index.
proof fn lemma_rising_places(n: int, places: Seq<int>)
    requires
        places.len() == n,
        forall|i: int| 0 <= i < n ==> 0 <= #[trigger] places[i] < n,
        forall|i: int, j: int| 0 <= i < j < n ==> #[trigger] places[i] < #[trigger] places[j],
    ensures
        forall|i: int| 0 <= i < n ==> #[trigger] places[i] == i,
    decreases n,
{
    if n > 0 {
        let shorter = places.take(n - 1);
        assert forall|i: int| 0 <= i < n - 1 implies 0 <= #[trigger] shorter[i] < n - 1 by {
            assert(places[i] < places[n - 1]);
        }
        lemma_rising_places(n - 1, shorter);
        assert forall|i: int| 0 <= i < n implies #[trigger] places[i] == i by {
            if i < n - 1 {
                assert(shorter[i] == places[i]);
            } else if n > 1 {
                assert(shorter[n - 2] == places[n - 2]);
                assert(places[n - 2] < places[n - 1]);
            }
        }
    }
}

/// Places that lie below their count and use no number twice use every
/// number below their count.
proof fn lemma_places_reach_all(places: Seq<int>)
    requires
        forall|i: int| 0 <= i < places.len() ==> 0 <= #[trigger] places[i] < places.len(),
        forall|i: int, j: int|
            0 <= i < j < places.len() ==> #[trigger] places[i] != #[trigger] places[j],
    ensures
        forall|x: int| 0 <= x < places.len() ==> places.contains(x),
{
    let n = places.len() as int;
    assert(places.no_duplicates()) by {
        assert forall|i: int, j: int|
            0 <= i < places.len() && 0 <= j < places.len() && i != j implies places[i]
            != places[j] by {
            if i < j {
                assert(places[i] != places[j]);
            } else {
                assert(places[j] != places[i]);
            }
        }
    }
    places.unique_seq_to_set();
    vstd::seq_lib::seq_to_set_is_finite(places);
    lemma_int_range(0, n);
    assert(places.to_set().subset_of(set_int_range(0, n))) by {
        assert forall|x: int| places.to_set().contains(x) implies set_int_range(0, n).contains(
            x,
        ) by {
            let i = choose|i: int| 0 <= i < places.len() && places[i] == x;
            assert(0 <= places[i] < places.len());
        }
    }
    lemma_subset_equality(places.to_set(), set_int_range(0, n));
    assert forall|x: int| 0 <= x < places.len() implies places.contains(x) by {
        assert(set_int_range(0, n).contains(x));
        assert(places.to_set().contains(x));
    }
}

/// Two stable sorts of one list take their first `k` stories from the same
/// places.
proof fn lemma_places_agree(
    order: SortOrder,
    stories: Seq<StoryView>,
    first: Seq<StoryView>,
    first_places: Seq<int>,
    second: Seq<StoryView>,
    second_places: Seq<int>,
    k: int,
)
    requires
        is_stable_sort(order, stories, first, first_places),
        is_stable_sort(order, stories, second, second_places),
        0 <= k <= stories.len(),
    ensures
        forall|i: int| 0 <= i < k ==> first_places[i] == second_places[i],
    decreases k,
{
    if k > 0 {
        lemma_places_agree(order, stories, first, first_places, second, second_places, k - 1);
        let here = k - 1;
        let x = first_places[here];
        let y = second_places[here];
        if x != y {
            lemma_places_reach_all(first_places);
            lemma_places_reach_all(second_places);
            assert(second_places.contains(x));
            assert(first_places.contains(y));
            let m = choose|m: int| 0 <= m < second_places.len() && second_places[m] == x;
            let l = choose|l: int| 0 <= l < first_places.len() && first_places[l] == y;
            // The place `x` is not used by the second sort before `here`,
            // nor the place `y` by the first.
            if m < here {
                assert(first_places[m] == second_places[m]);
                assert(first_places[m] != first_places[here]);
            }
            if l < here {
                assert(first_places[l] == second_places[l]);
                assert(second_places[l] != second_places[here]);
            }
            assert(m > here && l > here);
            assert(first[here] == stories[x] && first[l] == stories[y]);
            assert(second[here] == stories[y] && second[m] == stories[x]);
            // Each sort has the other's story later, so either story may
            // stand before the other; then each sort keeps them as they
            // stood, one with `x` before `y` and one with `y` before `x`.
            assert(may_precede(order, first[here], first[l]));
            assert(may_precede(order, second[here], second[m]));
            assert(first_places[here] < first_places[l]);
            assert(second_places[here] < second_places[m]);
            assert(false);
        }
    }
}

/// A list has one stable sort in a given order: two lists that are both a
/// stable sort of it are the same list.
pub proof fn lemma_stable_sort_is_unique(
    order: SortOrder,
    stories: Seq<StoryView>,
    first: Seq<StoryView>,
    first_places: Seq<int>,
    second: Seq<StoryView>,
    second_places: Seq<int>,
)
    requires
        is_stable_sort(order, stories, first, first_places),
        is_stable_sort(order, stories, second, second_places),
    ensures
        first == second,
        first_places == second_places,
{
    lemma_places_agree(
        order,
        stories,
        first,
        first_places,
        second,
        second_places,
        stories.len() as int,
    );
    assert(first_places =~= second_places);
    assert forall|i: int| 0 <= i < first.len() implies first[i] == second[i] by {
        assert(first[i] == stories[first_places[i]]);
        assert(second[i] == stories[second_places[i]]);
    }
    assert(first =~= second);
}

} // verus!
