//! Posts: showing, posting and listing.

use vstd::prelude::*;

use crate::controllers::{
    error_reply, invalid_reply, invalid_uuid_response, is_error_reply, is_invalid_reply,
    parse_error_response,
};
use crate::http::{Body, Response, Status};
use crate::models::error::ApiErrorCode;
use crate::models::post::{
    all_by, insert_outcome, is_listing, posts_of, visible_post, InputPost, Post, PostTagged,
    Selection,
};
use crate::models::user::{user_by_id, User};
use crate::models::{get_now_naive_date_time, is_uuid_text, new_uuid_text, Timestamp};
use crate::schema::Database;
use crate::services::token_authentication::AuthorizedUser;
use crate::validation::ValidationErrors;

verus! {

/// Answers a request for all posts with a word.
pub fn index() -> (response: Response)
    ensures
        response.status == Status::Success,
        response.challenge is None,
        response.body matches Body::Text(line) && line@ == "index"@,
{
    Response::text("index")
}

/// Answers a request to delete a post with a word.
pub fn delete() -> (response: Response)
    ensures
        response.status == Status::Success,
        response.challenge is None,
        response.body matches Body::Text(line) && line@ == "delete"@,
{
    Response::text("delete")
}

/// What showing a post at `now` gives: a post that everybody may see is
/// shown with its author as others may see them; any other post, be it a
/// draft, deleted or unknown, is answered as not found.
pub open spec fn show_outcome(db: Database, post_id: Option<String>, now: Timestamp, response: Response) -> bool {
    match post_id {
        None => is_error_reply(response, ApiErrorCode::InvalidRequest, "Invalid uuid."@),
        Some(id) => match visible_post(db.posts@, id@, now) {
            None => is_error_reply(response, ApiErrorCode::NotFound, "Post does not exist."@),
            Some(post) => match user_by_id(db.users@, post.author_id@) {
                Some(author) => {
                    &&& response.status == Status::Success
                    &&& response.challenge is None
                    &&& response.body matches Body::Post(pair)
                    &&& pair.post == post
                    &&& pair.user@ == author.outward()
                },
                None => is_error_reply(
                    response,
                    ApiErrorCode::ServerError,
                    "Post without an author."@,
                ),
            },
        },
    }
}

/// Shows the post with the identifier `post_id` at the time that the clock
/// shows. `post_id` is the identifier in the path, if the path held one.
pub fn show(post_id: Option<String>, db: &Database) -> (response: Response)
    ensures
        exists|now: Timestamp| #[trigger] now.wf() && show_outcome(*db, post_id, now, response),
{
    let now = get_now_naive_date_time();
    let response = show_at(post_id, db, &now);
    assert(now.wf() && show_outcome(*db, post_id, now, response));
    response
}

/// Shows the post with the identifier `post_id` at `now`.
pub fn show_at(post_id: Option<String>, db: &Database, now: &Timestamp) -> (response: Response)
    ensures
        show_outcome(*db, post_id, *now, response),
{
    let post_id = match post_id {
        None => return invalid_uuid_response(),
        Some(u) => u,
    };
    match Post::fetch_by_id_at(&post_id, db, now) {
        Some(p) => {
            match User::fetch_by_id(&p.author_id, db) {
                Some(u) => Response {
                    status: Status::Success,
                    challenge: None,
                    body: Body::Post(p.with_user(u.filter_for_response())),
                },
                None => error_reply(ApiErrorCode::ServerError, "Post without an author."),
            }
        },
        None => error_reply(ApiErrorCode::NotFound, "Post does not exist."),
    }
}

/// The reply to posting, given what inserting the post gave: the identifier
/// of a post that was inserted is returned with status 201, an input that
/// fails a rule is answered with the list of what it fails, and an
/// identifier that is in use with a server error.
pub open spec fn create_reply(
    inserted: Result<Option<String>, ValidationErrors>,
    response: Response,
) -> bool {
    match inserted {
        Ok(Some(stored)) => {
            &&& response.status == Status::Created
            &&& response.challenge is None
            &&& response.body matches Body::PostId(shown)
            &&& shown@ == stored@
        },
        Ok(None) => is_error_reply(response, ApiErrorCode::ServerError, "Failed to create post."@),
        Err(list) => is_invalid_reply(response, list),
    }
}

/// What posting at `now` does, where `id` is the identifier drawn. One
/// without a profile is told to sign up first, and a body that cannot be
/// read is answered as such. Else the post is inserted for the profile, and
/// the reply is as [`create_reply`] says.
pub open spec fn create_outcome(
    before: Database,
    after: Database,
    new_post: Option<InputPost>,
    authorized_user: AuthorizedUser,
    id: Seq<char>,
    now: Timestamp,
    response: Response,
) -> bool {
    match authorized_user.user {
        None => after == before && is_error_reply(
            response,
            ApiErrorCode::NotFound,
            "Create user first."@,
        ),
        Some(author) => match new_post {
            None => after == before && is_error_reply(
                response,
                ApiErrorCode::InvalidRequest,
                "Failed to parse request."@,
            ),
            Some(input) => exists|inserted: Result<Option<String>, ValidationErrors>| #[trigger]
                insert_outcome(before, after, input, author.id@, id, now, inserted) && create_reply(
                    inserted,
                    response,
                ),
        },
    }
}

/// Posts for the one who asks, with a fresh random identifier, at the time
/// that the clock shows. `new_post` is the body of the request, if it could
/// be read.
pub fn create(new_post: Option<InputPost>, authorized_user: &AuthorizedUser, db: &mut Database) -> (response:
    Response)
    ensures
        exists|id: Seq<char>, now: Timestamp| #[trigger]
            create_outcome(*old(db), *final(db), new_post, *authorized_user, id, now, response)
                && is_uuid_text(id) && now.wf(),
{
    let id = new_uuid_text();
    let now = get_now_naive_date_time();
    let ghost drawn = id@;
    let response = create_with(new_post, authorized_user, db, id, now);
    assert(create_outcome(*old(db), *db, new_post, *authorized_user, drawn, now, response)
        && is_uuid_text(drawn) && now.wf());
    response
}

/// Posts for the one who asks, with the identifier `id`, at `now`.
pub fn create_with(
    new_post: Option<InputPost>,
    authorized_user: &AuthorizedUser,
    db: &mut Database,
    id: String,
    now: Timestamp,
) -> (response: Response)
    ensures
        create_outcome(*old(db), *final(db), new_post, *authorized_user, id@, now, response),
{
    let user = match &authorized_user.user {
        Some(u) => u,
        None => return error_reply(ApiErrorCode::NotFound, "Create user first."),
    };
    let new_post = match new_post {
        None => return parse_error_response(),
        Some(p) => p,
    };
    let inserted = Post::insert_with(new_post, user, db, id, now);
    let ghost seen = inserted;
    let response = match inserted {
        Ok(Some(id)) => Response { status: Status::Created, challenge: None, body: Body::PostId(id) },
        Err(e) => invalid_reply(e),
        Ok(None) => error_reply(ApiErrorCode::ServerError, "Failed to create post."),
    };
    assert(insert_outcome(*old(db), *db, new_post, user.id@, id@, now, seen));
    response
}

/// Whether a reply lists, for `author`, the posts that `selection` wants at
/// `now`, the newest first, each with the author as others may see them.
pub open spec fn lists_posts(
    response: Response,
    db: Database,
    author: User,
    selection: Selection,
    now: Timestamp,
) -> bool {
    &&& response.status == Status::Success
    &&& response.challenge is None
    &&& response.body matches Body::Posts(PostTagged::Posts(list))
    &&& all_by(list@, author)
    &&& is_listing(db.posts@, selection.at(now), posts_of(list@))
}

/// What listing the posts of a user at `now` gives to anybody: the posts of
/// that user that everybody may see.
pub open spec fn users_index_outcome(
    db: Database,
    user_id: Option<String>,
    now: Timestamp,
    response: Response,
) -> bool {
    match user_id {
        None => is_error_reply(response, ApiErrorCode::InvalidRequest, "Invalid uuid."@),
        Some(id) => match user_by_id(db.users@, id@) {
            None => is_error_reply(response, ApiErrorCode::NotFound, "User not found"@),
            Some(user) => lists_posts(response, db, user, Selection::PublishedBy(user.id), now),
        },
    }
}

/// Lists the posts of the user with the identifier `user_id` that everybody
/// may see at the time that the clock shows.
pub fn users_index(user_id: Option<String>, db: &Database) -> (response: Response)
    ensures
        exists|now: Timestamp| #[trigger]
            now.wf() && users_index_outcome(*db, user_id, now, response),
{
    let now = get_now_naive_date_time();
    let response = users_index_at(user_id, db, &now);
    assert(now.wf() && users_index_outcome(*db, user_id, now, response));
    response
}

/// Lists the posts of the user with the identifier `user_id` that everybody
/// may see at `now`.
pub fn users_index_at(user_id: Option<String>, db: &Database, now: &Timestamp) -> (response:
    Response)
    ensures
        users_index_outcome(*db, user_id, *now, response),
{
    let user_id = match user_id {
        None => return invalid_uuid_response(),
        Some(u) => u,
    };
    let user = match User::fetch_by_id(&user_id, db) {
        Some(u) => u,
        None => return error_reply(ApiErrorCode::NotFound, "User not found"),
    };
    response_fetch_posts_by_user(db, &user, now)
}

/// Lists the posts of the one who asks as their author sees them: all that
/// are not deleted, drafts among them. One without a profile is told to
/// sign up first.
pub fn my_index(authorized_user: &AuthorizedUser, db: &Database) -> (response: Response)
    ensures
        match authorized_user.user {
            None => is_error_reply(response, ApiErrorCode::NotFound, "Create user first."@),
            Some(user) => forall|now: Timestamp| #[trigger]
                lists_posts(response, *db, user, Selection::AllBy(user.id), now),
        },
{
    let user = match &authorized_user.user {
        Some(u) => u,
        None => return error_reply(ApiErrorCode::NotFound, "Create user first."),
    };
    Response {
        status: Status::Success,
        challenge: None,
        body: Body::Posts(Post::fetch_own_list_by_author(user, db).wrap_tagged()),
    }
}

/// Lists the posts of `user` that everybody may see at `now`.
pub fn response_fetch_posts_by_user(db: &Database, user: &User, now: &Timestamp) -> (response:
    Response)
    ensures
        lists_posts(response, *db, *user, Selection::PublishedBy(user.id), *now),
{
    Response {
        status: Status::Success,
        challenge: None,
        body: Body::Posts(Post::fetch_list_by_author_at(user, db, now).wrap_tagged()),
    }
}

/// Posting keeps the keys of every table unique.
pub proof fn lemma_posting_keeps_the_keys_unique(
    before: Database,
    after: Database,
    new_post: Option<InputPost>,
    authorized_user: AuthorizedUser,
    id: Seq<char>,
    now: Timestamp,
    response: Response,
)
    requires
        before.keys_are_unique(),
        create_outcome(before, after, new_post, authorized_user, id, now, response),
    ensures
        after.keys_are_unique(),
{
    if let Some(author) = authorized_user.user {
        if let Some(input) = new_post {
            let inserted = choose|inserted: Result<Option<String>, ValidationErrors>| #[trigger]
                insert_outcome(before, after, input, author.id@, id, now, inserted) && create_reply(
                    inserted,
                    response,
                );
            if let Ok(stored) = inserted {
                let row = choose|row: crate::models::post::InsertablePost| #[trigger]
                    crate::models::post::build_outcome(input, author.id@, id, now, Ok(row))
                        && crate::models::post::post_stored(before, after, row, now, stored);
                crate::models::post::lemma_inserting_a_post_keeps_the_keys_unique(
                    before,
                    after,
                    row,
                    now,
                    stored,
                );
            }
        }
    }
}

} // verus!
