//! What it is for a list of games to be sorted.

use crate::sequences::{lemma_filter_keeps, lemma_filter_source};
use crate::steam::GameView;
use vstd::prelude::*;

verus! {

/// The games to which `key` gives the value `value`.
pub open spec fn keyed(key: spec_fn(GameView) -> int, value: int) -> spec_fn(GameView) -> bool {
    |game: GameView| key(game) == value
}

/// The games of `games` stand in ascending order of `key`.
pub open spec fn in_order(games: Seq<GameView>, key: spec_fn(GameView) -> int) -> bool {
    forall|i: int, j: int|
        0 <= i < j < games.len() ==> key(#[trigger] games[i]) <= key(#[trigger] games[j])
}

/// For each value of `key`, `a` and `b` hold the same games with that value,
/// in the same order.
pub open spec fn same_classes(a: Seq<GameView>, b: Seq<GameView>, key: spec_fn(GameView) -> int) -> bool {
    forall|value: int| #[trigger] a.filter(keyed(key, value)) == b.filter(keyed(key, value))
}

/// `sorted` holds the games of `games` in ascending order of `key`, and the
/// games with one key in the order they had in `games`: it is what a stable
/// sort makes of `games`.
pub open spec fn is_stable_sort_by(
    sorted: Seq<GameView>,
    games: Seq<GameView>,
    key: spec_fn(GameView) -> int,
) -> bool {
    in_order(sorted, key) && same_classes(sorted, games, key)
}

/// What a stable sort by `key` makes of `games`: [`lemma_sorted_by_exists`]
/// shows that there is such a list, and [`lemma_is_sorted_by`] that there is
/// one only.
pub open spec fn sorted_by(games: Seq<GameView>, key: spec_fn(GameView) -> int) -> Seq<GameView> {
    choose|sorted: Seq<GameView>| is_stable_sort_by(sorted, games, key)
}

/// A sequence filtered is its first item, if that meets the condition,
/// followed by the rest filtered.
proof fn lemma_filter_first(s: Seq<GameView>, pred: spec_fn(GameView) -> bool)
    requires
        s.len() > 0,
    ensures
        s.filter(pred) == if pred(s[0]) {
            seq![s[0]] + s.skip(1).filter(pred)
        } else {
            s.skip(1).filter(pred)
        },
{
    let head = seq![s[0]];
    assert(s =~= head + s.skip(1));
    Seq::filter_distributes_over_add(head, s.skip(1), pred);
    assert(head.filter(pred) =~= if pred(s[0]) {
        head
    } else {
        Seq::empty()
    }) by {
        reveal_with_fuel(Seq::filter, 2);
        assert(head.drop_last() =~= Seq::<GameView>::empty());
    }
    assert(Seq::<GameView>::empty() + s.skip(1).filter(pred) =~= s.skip(1).filter(pred));
}

/// An empty list shares its classes with an empty list only.
proof fn lemma_classes_of_nothing(a: Seq<GameView>, b: Seq<GameView>, key: spec_fn(GameView) -> int)
    requires
        a.len() == 0,
        same_classes(a, b, key),
    ensures
        b.len() == 0,
{
    if b.len() > 0 {
        let value = key(b[0]);
        let at = lemma_filter_keeps(b, keyed(key, value), 0);
        a.lemma_filter_len(keyed(key, value));
        assert(a.filter(keyed(key, value)) == b.filter(keyed(key, value)));
    }
}

/// The first of a list in order has the least key among the lists that
/// share its classes.
proof fn lemma_least_key(a: Seq<GameView>, b: Seq<GameView>, key: spec_fn(GameView) -> int)
    requires
        a.len() > 0,
        b.len() > 0,
        in_order(b, key),
        same_classes(a, b, key),
    ensures
        key(b[0]) <= key(a[0]),
{
    let value = key(a[0]);
    let at = lemma_filter_keeps(a, keyed(key, value), 0);
    assert(a.filter(keyed(key, value)) == b.filter(keyed(key, value)));
    let from = lemma_filter_source(b, keyed(key, value), at);
    assert(key(b[from]) == value);
}

/// Two lists in order that share their classes are one list.
pub proof fn lemma_sorted_unique(a: Seq<GameView>, b: Seq<GameView>, key: spec_fn(GameView) -> int)
    requires
        in_order(a, key),
        in_order(b, key),
        same_classes(a, b, key),
    ensures
        a == b,
    decreases a.len(),
{
    if a.len() == 0 {
        lemma_classes_of_nothing(a, b, key);
        assert(a =~= b);
    } else {
        if b.len() == 0 {
            assert(same_classes(b, a, key));
            lemma_classes_of_nothing(b, a, key);
        }
        assert(same_classes(b, a, key));
        lemma_least_key(a, b, key);
        lemma_least_key(b, a, key);
        let least = key(a[0]);
        lemma_filter_first(a, keyed(key, least));
        lemma_filter_first(b, keyed(key, least));
        assert(a.filter(keyed(key, least)) == b.filter(keyed(key, least)));
        assert(a.filter(keyed(key, least))[0] == a[0]);
        assert(b.filter(keyed(key, least))[0] == b[0]);
        let a_rest = a.skip(1);
        let b_rest = b.skip(1);
        assert forall|value: int| #[trigger]
            a_rest.filter(keyed(key, value)) == b_rest.filter(keyed(key, value)) by {
            let pred = keyed(key, value);
            lemma_filter_first(a, pred);
            lemma_filter_first(b, pred);
            assert(a.filter(pred) == b.filter(pred));
            if pred(a[0]) {
                assert((seq![a[0]] + a_rest.filter(pred)).skip(1) =~= a_rest.filter(pred));
                assert((seq![b[0]] + b_rest.filter(pred)).skip(1) =~= b_rest.filter(pred));
            }
        }
        assert(in_order(a_rest, key)) by {
            assert forall|i: int, j: int| 0 <= i < j < a_rest.len() implies key(
                #[trigger] a_rest[i],
            ) <= key(#[trigger] a_rest[j]) by {
                assert(a_rest[i] == a[i + 1] && a_rest[j] == a[j + 1]);
            }
        }
        assert(in_order(b_rest, key)) by {
            assert forall|i: int, j: int| 0 <= i < j < b_rest.len() implies key(
                #[trigger] b_rest[i],
            ) <= key(#[trigger] b_rest[j]) by {
                assert(b_rest[i] == b[i + 1] && b_rest[j] == b[j + 1]);
            }
        }
        lemma_sorted_unique(a_rest, b_rest, key);
        assert(a =~= seq![a[0]] + a_rest);
        assert(b =~= seq![b[0]] + b_rest);
    }
}

/// A stable sort has one result: a list that is a stable sort of `games`
/// is [`sorted_by`] of `games`.
pub proof fn lemma_is_sorted_by(
    sorted: Seq<GameView>,
    games: Seq<GameView>,
    key: spec_fn(GameView) -> int,
)
    requires
        is_stable_sort_by(sorted, games, key),
    ensures
        sorted == sorted_by(games, key),
{
    let chosen = sorted_by(games, key);
    assert(is_stable_sort_by(chosen, games, key));
    assert forall|value: int| #[trigger]
        sorted.filter(keyed(key, value)) == chosen.filter(keyed(key, value)) by {
        assert(sorted.filter(keyed(key, value)) == games.filter(keyed(key, value)));
        assert(chosen.filter(keyed(key, value)) == games.filter(keyed(key, value)));
    }
    lemma_sorted_unique(sorted, chosen, key);
}

/// `sorted` with `game` put in behind the games whose key is not greater.
spec fn put_in(sorted: Seq<GameView>, game: GameView, key: spec_fn(GameView) -> int) -> Seq<GameView>
    decreases sorted.len(),
{
    if sorted.len() == 0 || key(sorted.last()) <= key(game) {
        sorted.push(game)
    } else {
        put_in(sorted.drop_last(), game, key).push(sorted.last())
    }
}

/// The games of `games` put in one after the other, in their order.
spec fn put_in_all(games: Seq<GameView>, key: spec_fn(GameView) -> int) -> Seq<GameView>
    decreases games.len(),
{
    if games.len() == 0 {
        games
    } else {
        put_in(put_in_all(games.drop_last(), key), games.last(), key)
    }
}

/// Putting a game into a list in order leaves it in order, adds the game
/// at the end of its class and changes no other class.
proof fn lemma_put_in(sorted: Seq<GameView>, game: GameView, key: spec_fn(GameView) -> int)
    requires
        in_order(sorted, key),
    ensures
        in_order(put_in(sorted, game, key), key),
        forall|i: int|
            0 <= i < put_in(sorted, game, key).len() ==> #[trigger] put_in(sorted, game, key)[i]
                == game || sorted.contains(put_in(sorted, game, key)[i]),
        forall|value: int| #[trigger]
            put_in(sorted, game, key).filter(keyed(key, value)) == if key(game) == value {
                sorted.filter(keyed(key, value)).push(game)
            } else {
                sorted.filter(keyed(key, value))
            },
    decreases sorted.len(),
{
    let result = put_in(sorted, game, key);
    if sorted.len() == 0 || key(sorted.last()) <= key(game) {
        assert forall|i: int, j: int| 0 <= i < j < result.len() implies key(#[trigger] result[i])
            <= key(#[trigger] result[j]) by {
            if j == sorted.len() {
                assert(result[i] == sorted[i]);
                if i < sorted.len() - 1 {
                    assert(key(sorted[i]) <= key(sorted[sorted.len() - 1]));
                }
            } else {
                assert(result[i] == sorted[i] && result[j] == sorted[j]);
            }
        }
        assert forall|i: int| 0 <= i < result.len() implies #[trigger] result[i] == game
            || sorted.contains(result[i]) by {
            if i < sorted.len() {
                assert(sorted[i] == result[i]);
            }
        }
        assert forall|value: int| #[trigger]
            result.filter(keyed(key, value)) == if key(game) == value {
                sorted.filter(keyed(key, value)).push(game)
            } else {
                sorted.filter(keyed(key, value))
            } by {
            sorted.lemma_filter_push(game, keyed(key, value));
        }
    } else {
        let init = sorted.drop_last();
        let last = sorted.last();
        let inner = put_in(init, game, key);
        assert(in_order(init, key)) by {
            assert forall|i: int, j: int| 0 <= i < j < init.len() implies key(#[trigger] init[i])
                <= key(#[trigger] init[j]) by {
                assert(init[i] == sorted[i] && init[j] == sorted[j]);
            }
        }
        lemma_put_in(init, game, key);
        assert(sorted =~= init.push(last));
        assert forall|i: int| 0 <= i < inner.len() implies key(#[trigger] inner[i]) <= key(
            last,
        ) by {
            if inner[i] != game {
                assert(init.contains(inner[i]));
                let at = choose|at: int| 0 <= at < init.len() && init[at] == inner[i];
                assert(init[at] == sorted[at]);
                assert(key(sorted[at]) <= key(sorted[sorted.len() - 1]));
            }
        }
        assert forall|i: int, j: int| 0 <= i < j < result.len() implies key(#[trigger] result[i])
            <= key(#[trigger] result[j]) by {
            assert(result[i] == inner[i]);
            if j < inner.len() {
                assert(result[j] == inner[j]);
            }
        }
        assert forall|i: int| 0 <= i < result.len() implies #[trigger] result[i] == game
            || sorted.contains(result[i]) by {
            if i < inner.len() {
                assert(result[i] == inner[i]);
                if inner[i] != game {
                    let at = choose|at: int| 0 <= at < init.len() && init[at] == inner[i];
                    assert(sorted[at] == inner[i]);
                }
            } else {
                assert(sorted[sorted.len() - 1] == result[i]);
            }
        }
        assert forall|value: int| #[trigger]
            result.filter(keyed(key, value)) == if key(game) == value {
                sorted.filter(keyed(key, value)).push(game)
            } else {
                sorted.filter(keyed(key, value))
            } by {
            let pred = keyed(key, value);
            inner.lemma_filter_push(last, pred);
            init.lemma_filter_push(last, pred);
            assert(inner.filter(pred) == if key(game) == value {
                init.filter(pred).push(game)
            } else {
                init.filter(pred)
            });
        }
    }
}

/// Putting in all games of a list, one after the other, sorts the list
/// stably.
proof fn lemma_put_in_all(games: Seq<GameView>, key: spec_fn(GameView) -> int)
    ensures
        is_stable_sort_by(put_in_all(games, key), games, key),
    decreases games.len(),
{
    let result = put_in_all(games, key);
    if games.len() == 0 {
    } else {
        let init = games.drop_last();
        let last = games.last();
        let sorted = put_in_all(init, key);
        lemma_put_in_all(init, key);
        lemma_put_in(sorted, last, key);
        assert(games =~= init.push(last));
        assert forall|value: int| #[trigger]
            result.filter(keyed(key, value)) == games.filter(keyed(key, value)) by {
            let pred = keyed(key, value);
            init.lemma_filter_push(last, pred);
            assert(sorted.filter(pred) == init.filter(pred));
        }
    }
}

/// A stable sort has a result: whatever the games and the key, there is a
/// list that is a stable sort of them, and [`sorted_by`] is that list.
pub proof fn lemma_sorted_by_exists(games: Seq<GameView>, key: spec_fn(GameView) -> int)
    ensures
        is_stable_sort_by(sorted_by(games, key), games, key),
{
    lemma_put_in_all(games, key);
}

} // verus!
