//! The tables, and what it means to look a row up in one.
//!
//! A table is the sequence of its rows in the order in which they were
//! inserted. A query names the rows it wants by a predicate; the row it
//! finds is the first of them.

use vstd::prelude::*;

use crate::models::post::{apart as posts_apart, Post};
use crate::models::user::{apart as users_apart, User};
use crate::models::user_credential::{apart as credentials_apart, UserCredential};
use crate::models::user_token::{apart as tokens_apart, UserToken};

verus! {

/// The four tables.
pub struct Database {
    pub posts: Vec<Post>,
    pub user_credentials: Vec<UserCredential>,
    pub user_tokens: Vec<UserToken>,
    pub users: Vec<User>,
}

impl Database {
    /// Whether the keys of every table are unique: no two posts, credentials
    /// or profiles have one identifier, no two tokens are the same, and of
    /// the rows that are not deleted no two credentials have one email and
    /// no two profiles one handle.
    pub open spec fn keys_are_unique(self) -> bool {
        &&& pairwise(self.posts@, posts_apart())
        &&& pairwise(self.user_credentials@, credentials_apart())
        &&& pairwise(self.user_tokens@, tokens_apart())
        &&& pairwise(self.users@, users_apart())
    }

    /// Four empty tables.
    pub fn new() -> (db: Database)
        ensures
            db.posts@.len() == 0,
            db.user_credentials@.len() == 0,
            db.user_tokens@.len() == 0,
            db.users@.len() == 0,
            db.keys_are_unique(),
    {
        Database {
            posts: Vec::new(),
            user_credentials: Vec::new(),
            user_tokens: Vec::new(),
            users: Vec::new(),
        }
    }
}

/// Whether `related` holds of every row and each row after it.
pub open spec fn pairwise<T>(rows: Seq<T>, related: spec_fn(T, T) -> bool) -> bool {
    forall|i: int, j: int|
        0 <= i < j < rows.len() ==> related(#[trigger] rows[i], #[trigger] rows[j])
}

/// Whether row `i` is wanted and no row before it is.
pub open spec fn is_first<T>(rows: Seq<T>, wanted: spec_fn(T) -> bool, i: int) -> bool {
    &&& 0 <= i < rows.len()
    &&& wanted(rows[i])
    &&& forall|j: int| 0 <= j < i ==> !wanted(#[trigger] rows[j])
}

/// Whether no row is wanted.
pub open spec fn none_is<T>(rows: Seq<T>, wanted: spec_fn(T) -> bool) -> bool {
    forall|j: int| 0 <= j < rows.len() ==> !wanted(#[trigger] rows[j])
}

/// The first wanted row, if there is one.
pub open spec fn first_row<T>(rows: Seq<T>, wanted: spec_fn(T) -> bool) -> Option<T> {
    if exists|i: int| is_first(rows, wanted, i) {
        Some(rows[choose|i: int| is_first(rows, wanted, i)])
    } else {
        None
    }
}

/// The rows that are not wanted.
pub open spec fn unwanted<T>(wanted: spec_fn(T) -> bool) -> spec_fn(T) -> bool {
    |row: T| !wanted(row)
}

/// The rows that are left when the wanted ones are deleted.
pub open spec fn rows_without<T>(rows: Seq<T>, wanted: spec_fn(T) -> bool) -> Seq<T> {
    rows.filter(unwanted(wanted))
}

/// A row that is wanted, with no wanted row before it, is the row found.
pub proof fn lemma_first_row_found<T>(rows: Seq<T>, wanted: spec_fn(T) -> bool, i: int)
    requires
        is_first(rows, wanted, i),
    ensures
        first_row(rows, wanted) == Some(rows[i]),
{
    let k = choose|k: int| is_first(rows, wanted, k);
    if k < i {
        assert(!wanted(rows[k]));
    } else if i < k {
        assert(!wanted(rows[i]));
    }
}

/// Where no row is wanted, none is found, and the other way round.
pub proof fn lemma_first_row_missing<T>(rows: Seq<T>, wanted: spec_fn(T) -> bool)
    ensures
        none_is(rows, wanted) <==> first_row(rows, wanted) is None,
{
    if none_is(rows, wanted) {
        if exists|i: int| is_first(rows, wanted, i) {
            let k = choose|k: int| is_first(rows, wanted, k);
            assert(wanted(rows[k]));
        }
    } else {
        let j = choose|j: int| 0 <= j < rows.len() && wanted(#[trigger] rows[j]);
        lemma_some_row_is_first(rows, wanted, j);
    }
}

/// Where some row up to `j` is wanted, one of them is the first.
proof fn lemma_some_row_is_first<T>(rows: Seq<T>, wanted: spec_fn(T) -> bool, j: int)
    requires
        0 <= j < rows.len(),
        wanted(rows[j]),
    ensures
        exists|i: int| is_first(rows, wanted, i),
    decreases j,
{
    if forall|k: int| 0 <= k < j ==> !wanted(#[trigger] rows[k]) {
        assert(is_first(rows, wanted, j));
    } else {
        let k = choose|k: int| 0 <= k < j && wanted(#[trigger] rows[k]);
        lemma_some_row_is_first(rows, wanted, k);
    }
}

/// The row found is a row of the table and is wanted.
pub proof fn lemma_first_row_is_wanted<T>(rows: Seq<T>, wanted: spec_fn(T) -> bool)
    ensures
        first_row(rows, wanted) matches Some(row) ==> wanted(row) && rows.contains(row),
{
    if exists|i: int| is_first(rows, wanted, i) {
        let k = choose|k: int| is_first(rows, wanted, k);
        assert(rows[k] == first_row(rows, wanted)->0);
    }
}

/// What holds of every row and each row after it still holds when rows are
/// deleted.
pub proof fn lemma_deleting_keeps_pairwise<T>(
    rows: Seq<T>,
    related: spec_fn(T, T) -> bool,
    kept: spec_fn(T) -> bool,
)
    requires
        pairwise(rows, related),
    ensures
        pairwise(rows.filter(kept), related),
        forall|i: int| 0 <= i < rows.filter(kept).len() ==> rows.contains(#[trigger] rows.filter(kept)[i]),
    decreases rows.len(),
{
    reveal(Seq::filter);
    if rows.len() > 0 {
        let front = rows.drop_last();
        let last = rows.last();
        assert forall|i: int, j: int| 0 <= i < j < front.len() implies related(
            #[trigger] front[i],
            #[trigger] front[j],
        ) by {
            assert(front[i] == rows[i] && front[j] == rows[j]);
        }
        lemma_deleting_keeps_pairwise(front, related, kept);
        let short = front.filter(kept);
        let whole = rows.filter(kept);
        assert forall|i: int| 0 <= i < whole.len() implies rows.contains(#[trigger] whole[i]) by {
            if i < short.len() {
                assert(whole[i] == short[i]);
                let k = choose|k: int| 0 <= k < front.len() && front[k] == short[i];
                assert(rows[k] == whole[i]);
            } else {
                assert(whole[i] == last);
                assert(rows[rows.len() - 1] == last);
            }
        }
        assert forall|i: int, j: int| 0 <= i < j < whole.len() implies related(
            #[trigger] whole[i],
            #[trigger] whole[j],
        ) by {
            if j < short.len() {
                assert(whole[i] == short[i] && whole[j] == short[j]);
            } else {
                assert(whole[j] == last && whole[i] == short[i]);
                let k = choose|k: int| 0 <= k < front.len() && front[k] == short[i];
                assert(rows[k] == whole[i] && rows[rows.len() - 1] == last);
            }
        }
    }
}

} // verus!
