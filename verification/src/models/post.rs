//! Posts: drafts, published posts, and who may see which.

use vstd::prelude::*;

use crate::models::user::{FilteredUser, User};
use crate::models::{get_now_naive_date_time, is_uuid_text, new_uuid_text, Timestamp};
use crate::schema::{first_row, lemma_first_row_found, lemma_first_row_missing, Database};
use crate::validation::{
    failure_if, length_is_within, validate_length, Field, FieldError, Rule, ValidationErrors,
};

verus! {

/// The least and the greatest number of characters of a post.
pub const CONTENT_MIN_LENGTH: u64 = 1;

pub const CONTENT_MAX_LENGTH: u64 = 1000;

/// A post, as a caller sends it.
#[derive(Debug, PartialEq, Eq)]
pub struct InputPost {
    pub content: String,
    /// Whether the post is published at once; else it is a draft.
    pub is_publish: bool,
}

/// A post row that is ready to be inserted.
#[derive(Debug, PartialEq, Eq)]
pub struct InsertablePost {
    pub id: String,
    pub content: String,
    pub author_id: String,
    pub published_at: Option<Timestamp>,
}

/// A list of posts, each with its author as others may see them.
#[derive(Debug, PartialEq, Eq)]
pub struct Posts(Vec<PostWithUser>);

/// One post under the key `post`, or a list under the key `posts`.
#[derive(Debug, PartialEq, Eq)]
pub enum PostTagged {
    Post(Post),
    Posts(Posts),
}

/// A post with its author as others may see them.
#[derive(Debug, PartialEq, Eq)]
pub struct PostWithUser {
    pub user: FilteredUser,
    pub post: Post,
}

/// A row of the post table.
#[derive(Debug, PartialEq, Eq)]
pub struct Post {
    pub id: String,
    pub content: String,
    pub author_id: String,
    pub created_at: Timestamp,
    pub updated_at: Timestamp,
    /// The instant from which the post is published. A post without one, or
    /// with one that is still to come, is a draft.
    pub published_at: Option<Timestamp>,
    pub deleted_at: Option<Timestamp>,
}

/// Which posts a list holds.
#[derive(Debug, PartialEq, Eq)]
pub enum Selection {
    /// The posts that everybody may see.
    Published,
    /// The posts of one author that everybody may see.
    PublishedBy(String),
    /// The drafts of one author.
    DraftsBy(String),
    /// The posts of one author, drafts and all.
    AllBy(String),
}

impl Clone for Post {
    fn clone(&self) -> (copy: Self)
        ensures
            copy == *self,
    {
        Post {
            id: self.id.clone(),
            content: self.content.clone(),
            author_id: self.author_id.clone(),
            created_at: self.created_at,
            updated_at: self.updated_at,
            published_at: self.published_at,
            deleted_at: self.deleted_at,
        }
    }
}

impl View for Posts {
    type V = Seq<PostWithUser>;

    /// The posts of the list, in its order.
    closed spec fn view(&self) -> Seq<PostWithUser> {
        self.0@
    }
}

impl InputPost {
    /// What this input fails: a content that is empty or longer than a
    /// thousand characters.
    pub open spec fn violations(self) -> Seq<FieldError> {
        failure_if(!self.is_valid(), Field::Content, Rule::Length)
    }

    /// Whether this input fails nothing.
    pub open spec fn is_valid(self) -> bool {
        length_is_within(self.content@.len(), Some(CONTENT_MIN_LENGTH), Some(CONTENT_MAX_LENGTH))
    }

    /// Checks the length of the content.
    pub fn validate(&self) -> (checked: Result<(), ValidationErrors>)
        ensures
            match checked {
                Ok(_) => self.is_valid(),
                Err(list) => !self.is_valid() && list.errors@ == self.violations(),
            },
    {
        let mut list = ValidationErrors::new();
        let fits = validate_length(
            self.content.as_str(),
            Some(CONTENT_MIN_LENGTH),
            Some(CONTENT_MAX_LENGTH),
        );
        list.add_if(!fits, Field::Content, Rule::Length);
        assert(list.errors@ =~= self.violations());
        list.into_result()
    }
}

/// What making a row of an input gives, where `id` is the identifier drawn
/// and `now` the time: the list of what the input fails, or the row, which is
/// published from `now` if the input says so and is a draft if not.
pub open spec fn build_outcome(
    input: InputPost,
    author_id: Seq<char>,
    id: Seq<char>,
    now: Timestamp,
    built: Result<InsertablePost, ValidationErrors>,
) -> bool {
    match built {
        Ok(row) => {
            &&& input.is_valid()
            &&& row.id@ == id
            &&& row.content@ == input.content@
            &&& row.author_id@ == author_id
            &&& row.published_at == if input.is_publish {
                Some(now)
            } else {
                None
            }
        },
        Err(list) => !input.is_valid() && list.errors@ == input.violations(),
    }
}

impl InsertablePost {
    /// The row for an input by `author`, with a fresh random identifier and
    /// the time that the clock shows.
    pub fn new(new_post: InputPost, author: &User) -> (built: Result<Self, ValidationErrors>)
        ensures
            exists|id: Seq<char>, now: Timestamp| #[trigger]
                build_outcome(new_post, author.id@, id, now, built) && is_uuid_text(id) && now.wf(),
    {
        let id = new_uuid_text();
        let now = get_now_naive_date_time();
        let ghost drawn = id@;
        let built = Self::build(new_post, author, id, now);
        assert(build_outcome(new_post, author.id@, drawn, now, built) && is_uuid_text(drawn)
            && now.wf());
        built
    }

    /// The row for an input by `author`, with the identifier `id` and the
    /// time `now`.
    pub fn build(new_post: InputPost, author: &User, id: String, now: Timestamp) -> (built: Result<
        Self,
        ValidationErrors,
    >)
        ensures
            build_outcome(new_post, author.id@, id@, now, built),
    {
        if let Err(list) = new_post.validate() {
            return Err(list);
        }
        Ok(
            Self {
                id,
                content: new_post.content,
                author_id: author.id.clone(),
                published_at: if new_post.is_publish {
                    Some(now)
                } else {
                    None
                },
            },
        )
    }
}

impl Posts {
    /// A list of the posts given, in their order.
    fn new(posts: Vec<PostWithUser>) -> (list: Self)
        ensures
            list@ == posts@,
    {
        Self(posts)
    }

    /// This list under the key `posts`.
    pub fn wrap_tagged(self) -> (tagged: PostTagged)
        ensures
            tagged matches PostTagged::Posts(list) && list@ == self@,
    {
        PostTagged::Posts(self)
    }

    /// The posts of this list, in its order.
    pub fn items(&self) -> (items: &Vec<PostWithUser>)
        ensures
            items@ == self@,
    {
        &self.0
    }
}

/// Whether `a` may stand before `b` in a list: it may if it was published
/// no earlier than `b`, or if `b` has no instant of publication.
pub open spec fn may_precede(a: Post, b: Post) -> bool {
    match (a.published_at, b.published_at) {
        (Some(x), Some(y)) => y.not_after(x),
        (None, Some(_)) => false,
        (_, None) => true,
    }
}

/// Whether each post of a list may stand before all that follow it: the
/// latest published comes first, and the posts without an instant of
/// publication last.
pub open spec fn newest_first(list: Seq<Post>) -> bool {
    forall|i: int, j: int| 0 <= i < j < list.len() ==> may_precede(#[trigger] list[i], #[trigger] list[j])
}

/// Whether `listed` holds the wanted rows of the table, each as often as
/// the table does, the newest first.
pub open spec fn is_listing(rows: Seq<Post>, wanted: spec_fn(Post) -> bool, listed: Seq<Post>) -> bool {
    newest_first(listed) && listed.to_multiset() == rows.filter(wanted).to_multiset()
}

impl Selection {
    /// Whether a post belongs to this selection at `now`. A deleted post
    /// belongs to none.
    pub open spec fn wants(self, post: Post, now: Timestamp) -> bool {
        match self {
            Selection::Published => post.is_publicly_visible(now),
            Selection::PublishedBy(author) => post.author_id@ == author@ && post.is_publicly_visible(now),
            Selection::DraftsBy(author) => post.author_id@ == author@ && post.is_draft(now),
            Selection::AllBy(author) => post.author_id@ == author@ && post.deleted_at is None,
        }
    }

    /// The posts that belong to this selection at `now`.
    pub open spec fn at(self, now: Timestamp) -> spec_fn(Post) -> bool {
        |post: Post| self.wants(post, now)
    }

    /// Tells whether a post belongs to this selection at `now`.
    pub fn admits(&self, post: &Post, now: &Timestamp) -> (wanted: bool)
        ensures
            wanted == self.wants(*post, *now),
    {
        match self {
            Selection::Published => post.publicly_visible(now),
            Selection::PublishedBy(author) => post.author_id == *author && post.publicly_visible(now),
            Selection::DraftsBy(author) => post.author_id == *author && post.deleted_at.is_none()
                && !post.publicly_visible(now),
            Selection::AllBy(author) => post.author_id == *author && post.deleted_at.is_none(),
        }
    }
}

impl Post {
    /// Whether everybody may see this post at `now`: it is not deleted, it
    /// has an instant of publication, and that instant is `now` or earlier.
    pub open spec fn is_publicly_visible(self, now: Timestamp) -> bool {
        &&& self.deleted_at is None
        &&& self.published_at matches Some(at)
        &&& at.not_after(now)
    }

    /// Whether this post is a draft at `now`: it is not deleted and not yet
    /// published.
    pub open spec fn is_draft(self, now: Timestamp) -> bool {
        self.deleted_at is None && !self.is_publicly_visible(now)
    }

    /// Tells whether everybody may see this post at `now`.
    pub fn publicly_visible(&self, now: &Timestamp) -> (visible: bool)
        ensures
            visible == self.is_publicly_visible(*now),
    {
        match &self.published_at {
            Some(at) => self.deleted_at.is_none() && at.is_not_after(now),
            None => false,
        }
    }

    /// Tells whether this post comes strictly before `other` in a list.
    fn comes_before(&self, other: &Post) -> (before: bool)
        ensures
            before == !may_precede(*other, *self),
    {
        match (&self.published_at, &other.published_at) {
            (Some(x), Some(y)) => y.is_before(x),
            (Some(_), None) => true,
            (None, _) => false,
        }
    }

    /// This post under the key `post`.
    pub fn wrap_tagged(self) -> (tagged: PostTagged)
        ensures
            tagged == PostTagged::Post(self),
    {
        PostTagged::Post(self)
    }

    /// This post with its author.
    pub fn with_user(self, user: FilteredUser) -> (pair: PostWithUser)
        ensures
            pair.post == self,
            pair.user == user,
    {
        PostWithUser { user, post: self }
    }
}

/// The posts of a list of pairs, in its order.
pub open spec fn posts_of(pairs: Seq<PostWithUser>) -> Seq<Post> {
    Seq::new(pairs.len(), |i: int| pairs[i].post)
}

/// Whether every pair of a list shows `author` as others may see them.
pub open spec fn all_by(pairs: Seq<PostWithUser>, author: User) -> bool {
    forall|i: int| 0 <= i < pairs.len() ==> (#[trigger] pairs[i]).user@ == author.outward()
}

/// The posts with the identifier `id` that everybody may see at `now`.
pub open spec fn visible_with_id(id: Seq<char>, now: Timestamp) -> spec_fn(Post) -> bool {
    |post: Post| post.id@ == id && post.is_publicly_visible(now)
}

/// The post with the identifier `id`, if everybody may see it at `now`.
pub open spec fn visible_post(rows: Seq<Post>, id: Seq<char>, now: Timestamp) -> Option<Post> {
    first_row(rows, visible_with_id(id, now))
}

/// Whether some row has the identifier `id`.
pub open spec fn holds_post(rows: Seq<Post>, id: Seq<char>) -> bool {
    exists|j: int| 0 <= j < rows.len() && (#[trigger] rows[j]).id@ == id
}

/// What inserting a post row at `now` does: where the table holds the
/// identifier already, nothing; else the row is added and its identifier
/// returned. No other table changes.
pub open spec fn post_stored(
    before: Database,
    after: Database,
    row: InsertablePost,
    now: Timestamp,
    stored: Option<String>,
) -> bool {
    &&& after.user_credentials == before.user_credentials
    &&& after.user_tokens == before.user_tokens
    &&& after.users == before.users
    &&& if holds_post(before.posts@, row.id@) {
        stored is None && after.posts@ == before.posts@
    } else {
        &&& stored matches Some(s)
        &&& s@ == row.id@
        &&& after.posts@.len() == before.posts@.len() + 1
        &&& after.posts@.drop_last() == before.posts@
        &&& after.posts@.last().is_stored(row, now)
    }
}

/// What posting an input at `now` does, where `id` is the identifier drawn:
/// an input that fails a rule changes nothing and gives the list of what it
/// fails; any other is inserted as [`post_stored`] says.
pub open spec fn insert_outcome(
    before: Database,
    after: Database,
    input: InputPost,
    author_id: Seq<char>,
    id: Seq<char>,
    now: Timestamp,
    inserted: Result<Option<String>, ValidationErrors>,
) -> bool {
    match inserted {
        Ok(stored) => exists|row: InsertablePost| #[trigger]
            build_outcome(input, author_id, id, now, Ok(row)) && post_stored(
                before,
                after,
                row,
                now,
                stored,
            ),
        Err(list) => !input.is_valid() && list.errors@ == input.violations() && after == before,
    }
}

/// The wanted rows of a table, the newest first. Of two rows that were
/// published at one instant, the one that was inserted first comes first.
fn select(rows: &Vec<Post>, selection: &Selection, now: &Timestamp) -> (listed: Vec<Post>)
    ensures
        is_listing(rows@, selection.at(*now), listed@),
{
    let ghost wanted = selection.at(*now);
    let mut listed: Vec<Post> = Vec::new();
    let mut i: usize = 0;
    assert(rows@.take(0).filter(wanted) =~= Seq::<Post>::empty());
    while i < rows.len()
        invariant
            i <= rows@.len(),
            wanted == selection.at(*now),
            newest_first(listed@),
            listed@.to_multiset() == rows@.take(i as int).filter(wanted).to_multiset(),
        decreases rows@.len() - i,
    {
        let row = &rows[i];
        proof {
            assert(rows@.take(i + 1) =~= rows@.take(i as int).push(*row));
            rows@.take(i as int).lemma_filter_push(*row, wanted);
        }
        if selection.admits(row, now) {
            let mut k: usize = 0;
            while k < listed.len() && !row.comes_before(&listed[k])
                invariant
                    k <= listed@.len(),
                    forall|j: int| 0 <= j < k ==> may_precede(#[trigger] listed@[j], *row),
                decreases listed@.len() - k,
            {
                k += 1;
            }
            let ghost before = listed@;
            listed.insert(k, row.clone());
            proof {
                vstd::seq_lib::to_multiset_insert(before, k as int, *row);
                vstd::seq_lib::to_multiset_build(rows@.take(i as int).filter(wanted), *row);
                assert forall|a: int, b: int| 0 <= a < b < listed@.len() implies may_precede(
                    #[trigger] listed@[a],
                    #[trigger] listed@[b],
                ) by {
                    if a < k && b == k {
                        assert(listed@[a] == before[a]);
                    } else if a < k && b > k {
                        assert(listed@[a] == before[a] && listed@[b] == before[b - 1]);
                    } else if a == k {
                        assert(listed@[b] == before[b - 1]);
                        assert(may_precede(before[k as int], before[b - 1]) || b - 1 == k);
                    } else if a > k {
                        assert(listed@[a] == before[a - 1] && listed@[b] == before[b - 1]);
                    } else {
                        assert(listed@[a] == before[a] && listed@[b] == before[b]);
                    }
                }
            }
        }
        i += 1;
    }
    assert(rows@.take(i as int) =~= rows@);
    listed
}

impl Post {
    /// Whether this is the row that `row` becomes when it is inserted at
    /// `now`.
    pub open spec fn is_stored(self, row: InsertablePost, now: Timestamp) -> bool {
        &&& self.id@ == row.id@
        &&& self.content@ == row.content@
        &&& self.author_id@ == row.author_id@
        &&& self.created_at == now
        &&& self.updated_at == now
        &&& self.published_at == row.published_at
        &&& self.deleted_at is None
    }

    /// Posts an input by `author_user`, with a fresh random identifier, at
    /// the time that the clock shows.
    pub fn insert(post: InputPost, author_user: &User, db: &mut Database) -> (inserted: Result<
        Option<String>,
        ValidationErrors,
    >)
        ensures
            exists|id: Seq<char>, now: Timestamp| #[trigger]
                insert_outcome(*old(db), *final(db), post, author_user.id@, id, now, inserted)
                    && is_uuid_text(id) && now.wf(),
    {
        let id = new_uuid_text();
        let now = get_now_naive_date_time();
        let ghost drawn = id@;
        let inserted = Self::insert_with(post, author_user, db, id, now);
        assert(insert_outcome(*old(db), *db, post, author_user.id@, drawn, now, inserted)
            && is_uuid_text(drawn) && now.wf());
        inserted
    }

    /// Posts an input by `author_user`, with the identifier `id`, at `now`.
    pub fn insert_with(
        post: InputPost,
        author_user: &User,
        db: &mut Database,
        id: String,
        now: Timestamp,
    ) -> (inserted: Result<Option<String>, ValidationErrors>)
        ensures
            insert_outcome(*old(db), *final(db), post, author_user.id@, id@, now, inserted),
    {
        match InsertablePost::build(post, author_user, id, now) {
            Ok(row) => {
                let stored = Self::store(row, db, now);
                assert(build_outcome(post, author_user.id@, id@, now, Ok(row)));
                Ok(stored)
            },
            Err(list) => Err(list),
        }
    }

    /// Inserts `row` at `now`, unless the table holds its identifier
    /// already.
    pub fn store(row: InsertablePost, db: &mut Database, now: Timestamp) -> (stored: Option<String>)
        ensures
            post_stored(*old(db), *final(db), row, now, stored),
    {
        let mut i: usize = 0;
        while i < db.posts.len()
            invariant
                i <= db.posts@.len(),
                *db == *old(db),
                forall|j: int| 0 <= j < i ==> (#[trigger] db.posts@[j]).id@ != row.id@,
            decreases db.posts@.len() - i,
        {
            if db.posts[i].id == row.id {
                return None;
            }
            i += 1;
        }
        let id = row.id.clone();
        db.posts.push(
            Post {
                id: row.id,
                content: row.content,
                author_id: row.author_id,
                created_at: now,
                updated_at: now,
                published_at: row.published_at,
                deleted_at: None,
            },
        );
        assert(db.posts@.drop_last() =~= old(db).posts@);
        Some(id)
    }

    /// The post with the identifier `post_id`, if everybody may see it at the
    /// time that the clock shows.
    pub fn fetch_by_id(post_id: &String, db: &Database) -> (found: Option<Post>)
        ensures
            exists|now: Timestamp| #[trigger] now.wf() && found == visible_post(db.posts@, post_id@, now),
    {
        let now = get_now_naive_date_time();
        let found = Self::fetch_by_id_at(post_id, db, &now);
        assert(now.wf() && found == visible_post(db.posts@, post_id@, now));
        found
    }

    /// The post with the identifier `post_id`, if everybody may see it at
    /// `now`.
    pub fn fetch_by_id_at(post_id: &String, db: &Database, now: &Timestamp) -> (found: Option<Post>)
        ensures
            found == visible_post(db.posts@, post_id@, *now),
    {
        let mut i: usize = 0;
        while i < db.posts.len()
            invariant
                i <= db.posts@.len(),
                forall|j: int|
                    0 <= j < i ==> !visible_with_id(post_id@, *now)(#[trigger] db.posts@[j]),
            decreases db.posts@.len() - i,
        {
            let row = &db.posts[i];
            if row.id == *post_id && row.publicly_visible(now) {
                proof {
                    lemma_first_row_found(db.posts@, visible_with_id(post_id@, *now), i as int);
                }
                return Some(row.clone());
            }
            i += 1;
        }
        proof {
            lemma_first_row_missing(db.posts@, visible_with_id(post_id@, *now));
        }
        None
    }

    /// The posts that everybody may see at the time that the clock shows,
    /// the newest first.
    pub fn fetch_list(_requested_user: &User, db: &Database) -> (listed: Vec<Post>)
        ensures
            exists|now: Timestamp| #[trigger]
                now.wf() && is_listing(db.posts@, Selection::Published.at(now), listed@),
    {
        let now = get_now_naive_date_time();
        let listed = Self::fetch_list_at(db, &now);
        assert(now.wf() && is_listing(db.posts@, Selection::Published.at(now), listed@));
        listed
    }

    /// The posts that everybody may see at `now`, the newest first.
    pub fn fetch_list_at(db: &Database, now: &Timestamp) -> (listed: Vec<Post>)
        ensures
            is_listing(db.posts@, Selection::Published.at(*now), listed@),
    {
        select(&db.posts, &Selection::Published, now)
    }

    /// The posts of `author` that everybody may see at the time that the
    /// clock shows, the newest first, each with the author as others may see
    /// them.
    pub fn fetch_list_by_author(author: &User, db: &Database) -> (list: Posts)
        ensures
            all_by(list@, *author),
            exists|now: Timestamp| #[trigger]
                now.wf() && is_listing(
                    db.posts@,
                    Selection::PublishedBy(author.id).at(now),
                    posts_of(list@),
                ),
    {
        let now = get_now_naive_date_time();
        let list = Self::fetch_list_by_author_at(author, db, &now);
        assert(now.wf() && is_listing(
            db.posts@,
            Selection::PublishedBy(author.id).at(now),
            posts_of(list@),
        ));
        list
    }

    /// The posts of `author` that everybody may see at `now`, the newest
    /// first, each with the author as others may see them.
    pub fn fetch_list_by_author_at(author: &User, db: &Database, now: &Timestamp) -> (list: Posts)
        ensures
            all_by(list@, *author),
            is_listing(db.posts@, Selection::PublishedBy(author.id).at(*now), posts_of(list@)),
    {
        let selection = Selection::PublishedBy(author.id.clone());
        Self::pair_with(select(&db.posts, &selection, now), author)
    }

    /// The drafts of `author` at the time that the clock shows: the posts
    /// that are not deleted and not yet published.
    pub fn fetch_draft_list_by_author(author: &User, db: &Database) -> (listed: Vec<Post>)
        ensures
            exists|now: Timestamp| #[trigger]
                now.wf() && is_listing(db.posts@, Selection::DraftsBy(author.id).at(now), listed@),
    {
        let now = get_now_naive_date_time();
        let listed = Self::fetch_draft_list_by_author_at(author, db, &now);
        assert(now.wf() && is_listing(db.posts@, Selection::DraftsBy(author.id).at(now), listed@));
        listed
    }

    /// The drafts of `author` at `now`.
    pub fn fetch_draft_list_by_author_at(author: &User, db: &Database, now: &Timestamp) -> (listed:
        Vec<Post>)
        ensures
            is_listing(db.posts@, Selection::DraftsBy(author.id).at(*now), listed@),
    {
        let selection = Selection::DraftsBy(author.id.clone());
        select(&db.posts, &selection, now)
    }

    /// The posts of `author` as the author sees them: all that are not
    /// deleted, published or not, the newest first.
    pub fn fetch_own_list_by_author(author: &User, db: &Database) -> (list: Posts)
        ensures
            all_by(list@, *author),
            forall|now: Timestamp|
                is_listing(db.posts@, #[trigger] Selection::AllBy(author.id).at(now), posts_of(list@)),
    {
        let now = Timestamp { day: 0, secs: 0, nanos: 0 };
        let selection = Selection::AllBy(author.id.clone());
        let listed = select(&db.posts, &selection, &now);
        assert forall|at: Timestamp|
            is_listing(db.posts@, #[trigger] Selection::AllBy(author.id).at(at), listed@) by {
            assert(Selection::AllBy(author.id).at(at) =~= selection.at(now));
        }
        Self::pair_with(listed, author)
    }

    /// Each post of a list with `author` as others may see them.
    fn pair_with(listed: Vec<Post>, author: &User) -> (list: Posts)
        ensures
            all_by(list@, *author),
            posts_of(list@) == listed@,
    {
        let mut pairs: Vec<PostWithUser> = Vec::new();
        let mut i: usize = 0;
        while i < listed.len()
            invariant
                i <= listed@.len(),
                pairs@.len() == i,
                all_by(pairs@, *author),
                forall|j: int| 0 <= j < i ==> (#[trigger] pairs@[j]).post == listed@[j],
            decreases listed@.len() - i,
        {
            pairs.push(listed[i].clone().with_user(author.filter_for_response()));
            i += 1;
        }
        assert(posts_of(pairs@) =~= listed@);
        Posts::new(pairs)
    }
}

/// A post is found by its identifier, by anybody, exactly if a row with
/// that identifier is not deleted and was published at `now` or before; and
/// the post found is such a row.
pub proof fn lemma_public_fetch_finds_exactly_the_visible(rows: Seq<Post>, id: Seq<char>, now: Timestamp)
    ensures
        visible_post(rows, id, now) is Some <==> exists|j: int|
            0 <= j < rows.len() && (#[trigger] rows[j]).id@ == id && rows[j].is_publicly_visible(now),
        visible_post(rows, id, now) matches Some(post) ==> post.id@ == id && rows.contains(post)
            && post.deleted_at is None && (post.published_at matches Some(at) && at.not_after(now)),
{
    let wanted = visible_with_id(id, now);
    lemma_first_row_missing(rows, wanted);
    crate::schema::lemma_first_row_is_wanted(rows, wanted);
    if visible_post(rows, id, now) is None {
        assert forall|j: int| 0 <= j < rows.len() implies !((#[trigger] rows[j]).id@ == id
            && rows[j].is_publicly_visible(now)) by {
            assert(!wanted(rows[j]));
        }
    } else {
        let post = visible_post(rows, id, now)->0;
        assert(wanted(post));
        let j = choose|j: int| 0 <= j < rows.len() && rows[j] == post;
        assert(rows[j].id@ == id && rows[j].is_publicly_visible(now));
    }
}

/// A list holds a post exactly if the table holds it and it is wanted, and
/// it holds as many posts as the table holds wanted rows.
pub proof fn lemma_listing_holds_exactly_the_wanted(
    rows: Seq<Post>,
    wanted: spec_fn(Post) -> bool,
    listed: Seq<Post>,
    post: Post,
)
    requires
        is_listing(rows, wanted, listed),
    ensures
        listed.contains(post) <==> rows.contains(post) && wanted(post),
        listed.len() == rows.filter(wanted).len(),
{
    let kept = rows.filter(wanted);
    vstd::seq_lib::to_multiset_contains(listed, post);
    vstd::seq_lib::to_multiset_contains(kept, post);
    vstd::seq_lib::to_multiset_len(listed);
    vstd::seq_lib::to_multiset_len(kept);
    if kept.contains(post) {
        rows.lemma_filter_contains_rev(wanted, post);
        let k = choose|k: int| 0 <= k < kept.len() && kept[k] == post;
        rows.lemma_filter_pred(wanted, k);
    }
    if rows.contains(post) && wanted(post) {
        let j = choose|j: int| 0 <= j < rows.len() && rows[j] == post;
        rows.lemma_filter_contains(wanted, j);
    }
}

/// A post that is not deleted and not yet published, be it without an
/// instant of publication or with one that is still to come, is in the list
/// that its author sees of their own posts and among their drafts, and
/// nobody finds it by its identifier or in a list of published posts.
pub proof fn lemma_a_draft_is_seen_by_its_author_alone(rows: Seq<Post>, post: Post, now: Timestamp)
    requires
        rows.contains(post),
        post.deleted_at is None,
        post.published_at matches Some(at) ==> now.precedes(at),
    ensures
        Selection::AllBy(post.author_id).wants(post, now),
        Selection::DraftsBy(post.author_id).wants(post, now),
        !Selection::Published.wants(post, now),
        !Selection::PublishedBy(post.author_id).wants(post, now),
        visible_post(rows, post.id@, now) != Some(post),
{
    crate::schema::lemma_first_row_is_wanted(rows, visible_with_id(post.id@, now));
}

/// A deleted post is in no list and is found by nobody.
pub proof fn lemma_a_deleted_post_is_seen_by_nobody(
    rows: Seq<Post>,
    post: Post,
    selection: Selection,
    now: Timestamp,
)
    requires
        post.deleted_at is Some,
    ensures
        !selection.wants(post, now),
        visible_post(rows, post.id@, now) != Some(post),
{
    crate::schema::lemma_first_row_is_wanted(rows, visible_with_id(post.id@, now));
}

/// Two post rows are apart if their identifiers differ.
pub open spec fn apart() -> spec_fn(Post, Post) -> bool {
    |a: Post, b: Post| a.id@ != b.id@
}

/// Inserting a post keeps the keys of every table unique.
pub proof fn lemma_inserting_a_post_keeps_the_keys_unique(
    before: Database,
    after: Database,
    row: InsertablePost,
    now: Timestamp,
    stored: Option<String>,
)
    requires
        before.keys_are_unique(),
        post_stored(before, after, row, now, stored),
    ensures
        after.keys_are_unique(),
{
    let rows = before.posts@;
    let next = after.posts@;
    if !holds_post(rows, row.id@) {
        assert forall|i: int, j: int| 0 <= i < j < next.len() implies apart()(
            #[trigger] next[i],
            #[trigger] next[j],
        ) by {
            assert(next[i] == rows[i]);
            if j < rows.len() {
                assert(next[j] == rows[j]);
            }
        }
    }
}

} // verus!
