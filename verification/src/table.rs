//! Tables with a primary key: a table is the sequence of its rows, the oldest first.

use vstd::prelude::*;

verus! {

/// A row with a primary key.
pub trait Row: Sized {
    type Key;

    /// The primary key of the row.
    spec fn key(self) -> Self::Key;
}

/// No two rows share a key.
pub open spec fn keys_are_unique<R: Row>(rows: Seq<R>) -> bool {
    forall|i: int, j: int|
        0 <= i < j < rows.len() ==> (#[trigger] rows[i]).key() != (#[trigger] rows[j]).key()
}

/// The row at `i` has the given key.
pub open spec fn holds_at<R: Row>(rows: Seq<R>, key: R::Key, i: int) -> bool {
    0 <= i < rows.len() && rows[i].key() == key
}

/// Where the row with a key stands.
pub open spec fn position<R: Row>(rows: Seq<R>, key: R::Key) -> Option<int> {
    if exists|i: int| holds_at(rows, key, i) {
        Some(choose|i: int| holds_at(rows, key, i))
    } else {
        None
    }
}

/// The row with a key.
pub open spec fn lookup<R: Row>(rows: Seq<R>, key: R::Key) -> Option<R> {
    match position(rows, key) {
        Some(i) => Some(rows[i]),
        None => None,
    }
}

/// A table after a row was inserted in place of one with the same key.
pub open spec fn upserted<R: Row>(rows: Seq<R>, row: R) -> Seq<R> {
    match position(rows, row.key()) {
        Some(i) => rows.remove(i).push(row),
        None => rows.push(row),
    }
}

/// In a table with unique keys a key stands in one place.
pub proof fn position_is<R: Row>(rows: Seq<R>, key: R::Key, i: int)
    requires
        keys_are_unique(rows),
        holds_at(rows, key, i),
    ensures
        position(rows, key) == Some(i),
        lookup(rows, key) == Some(rows[i]),
{
    let j = choose|j: int| holds_at(rows, key, j);
    assert(holds_at(rows, key, j));
    if j < i {
        assert(rows[j].key() != rows[i].key());
    } else if i < j {
        assert(rows[i].key() != rows[j].key());
    }
}

/// A key that no row has stands nowhere.
pub proof fn position_is_none<R: Row>(rows: Seq<R>, key: R::Key)
    requires
        forall|i: int| 0 <= i < rows.len() ==> (#[trigger] rows[i]).key() != key,
    ensures
        position(rows, key) == None::<int>,
        lookup(rows, key) == None::<R>,
{
    if exists|i: int| holds_at(rows, key, i) {
        let i = choose|i: int| holds_at(rows, key, i);
        assert(rows[i].key() != key);
    }
}

/// A key that is found stands in the table.
pub proof fn position_holds<R: Row>(rows: Seq<R>, key: R::Key)
    ensures
        position(rows, key) matches Some(i) ==> holds_at(rows, key, i),
        position(rows, key) is None ==> forall|i: int|
            0 <= i < rows.len() ==> (#[trigger] rows[i]).key() != key,
{
    if position(rows, key) is None {
        assert forall|i: int| 0 <= i < rows.len() implies (#[trigger] rows[i]).key() != key by {
            assert(!holds_at(rows, key, i));
        }
    }
}

/// A row with a new key keeps the keys unique, and is found afterwards; every other key is found as
/// before.
pub proof fn pushed_row_is_found<R: Row>(rows: Seq<R>, row: R, key: R::Key)
    requires
        keys_are_unique(rows),
        position(rows, row.key()) is None,
    ensures
        keys_are_unique(rows.push(row)),
        lookup(rows.push(row), key) == if key == row.key() {
            Some(row)
        } else {
            lookup(rows, key)
        },
{
    let all = rows.push(row);
    position_holds(rows, row.key());
    assert forall|i: int, j: int| 0 <= i < j < all.len() implies (#[trigger] all[i]).key() != (
    #[trigger] all[j]).key() by {
        if j < rows.len() {
            assert(rows[i].key() != rows[j].key());
        } else {
            assert(rows[i].key() != row.key());
        }
    }
    position_holds(rows, key);
    if key == row.key() {
        position_is(all, key, rows.len() as int);
    } else {
        match position(rows, key) {
            Some(i) => {
                position_is(all, key, i);
            },
            None => {
                assert forall|i: int| 0 <= i < all.len() implies (#[trigger] all[i]).key() != key by {
                    if i < rows.len() {
                        assert(rows[i].key() != key);
                    }
                }
                position_is_none(all, key);
            },
        }
    }
}

/// An upserted row keeps the keys unique, and is found afterwards; every other key is found as
/// before.
pub proof fn upserted_row_is_found<R: Row>(rows: Seq<R>, row: R, key: R::Key)
    requires
        keys_are_unique(rows),
    ensures
        keys_are_unique(upserted(rows, row)),
        lookup(upserted(rows, row), key) == if key == row.key() {
            Some(row)
        } else {
            lookup(rows, key)
        },
{
    position_holds(rows, row.key());
    match position(rows, row.key()) {
        None => {
            pushed_row_is_found(rows, row, key);
        },
        Some(at) => {
            let rest = rows.remove(at);
            assert forall|i: int| 0 <= i < rest.len() implies (#[trigger] rest[i]).key()
                != row.key() by {
                if i < at {
                    assert(rows[i].key() != rows[at].key());
                } else {
                    assert(rows[at].key() != rows[i + 1].key());
                }
            }
            position_is_none(rest, row.key());
            assert forall|i: int, j: int| 0 <= i < j < rest.len() implies (#[trigger] rest[i]).key()
                != (#[trigger] rest[j]).key() by {
                let a = if i < at {
                    i
                } else {
                    i + 1
                };
                let b = if j < at {
                    j
                } else {
                    j + 1
                };
                assert(rows[a].key() != rows[b].key());
            }
            pushed_row_is_found(rest, row, key);
            if key != row.key() {
                position_holds(rows, key);
                match position(rows, key) {
                    Some(i) => {
                        let b = if i < at {
                            i
                        } else {
                            i - 1
                        };
                        assert(rest[b] == rows[i]);
                        position_is(rest, key, b);
                    },
                    None => {
                        assert forall|i: int| 0 <= i < rest.len() implies (
                        #[trigger] rest[i]).key() != key by {
                            if i < at {
                                assert(rows[i].key() != key);
                            } else {
                                assert(rows[i + 1].key() != key);
                            }
                        }
                        position_is_none(rest, key);
                    },
                }
            }
        },
    }
}

/// Changing rows but not their keys keeps the keys unique, and leaves each row where it stood.
pub proof fn rewritten_rows_are_found<R: Row>(rows: Seq<R>, rewritten: Seq<R>, key: R::Key)
    requires
        keys_are_unique(rows),
        rewritten.len() == rows.len(),
        forall|i: int|
            0 <= i < rows.len() ==> (#[trigger] rewritten[i]).key() == rows[i].key(),
    ensures
        keys_are_unique(rewritten),
        position(rewritten, key) == position(rows, key),
{
    assert forall|i: int, j: int| 0 <= i < j < rewritten.len() implies (
    #[trigger] rewritten[i]).key() != (#[trigger] rewritten[j]).key() by {
        assert(rows[i].key() != rows[j].key());
    }
    position_holds(rows, key);
    match position(rows, key) {
        Some(i) => {
            assert(rewritten[i].key() == rows[i].key());
            position_is(rewritten, key, i);
        },
        None => {
            assert forall|i: int| 0 <= i < rewritten.len() implies (#[trigger] rewritten[i]).key()
                != key by {
                assert(rows[i].key() != key);
            }
            position_is_none(rewritten, key);
        },
    }
}

} // verus!
