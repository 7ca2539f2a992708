//! One handler per route. Each decides the response from what the request
//! carried; the three that serve posts share one store behind a lock. A last
//! step, run on every response, fixes the media type.

use crate::chance::draw_below_ten;
use crate::database::{
    added_post_is_listed_and_found, find_outcome, has_no_id, is_first_with_id, views_of,
    Database,
};
use crate::ident::{outcome_view, parse_uuid, uuid_parsed};
use crate::models::{Post, PostView};
use crate::response::{as_json, plain, MediaType, Response, ResponseView, Status};
use crate::sync::{held, held_mut, lock, made_with, new_lock, share};
use crate::text::{decimal, decimal_digits, decimal_text_reads_back, parse_seconds, seconds_of};
use std::sync::Arc;
use std::sync::Mutex;
use vstd::prelude::*;

verus! {

/// The fixed greeting of the root route.
pub open spec fn greeting() -> Seq<char> {
    "hello from rust webserver"@
}

/// The body that accompanies a lucky draw on the unreliable route.
pub open spec fn try_again() -> Seq<char> {
    "try again for 503"@
}

/// The body of the 400 that answers a delay which is no number of seconds.
pub open spec fn bad_delay() -> Seq<char> {
    "delay must be a non-negative whole number of seconds"@
}

/// The body that follows a wait of `seconds`.
pub open spec fn delay_message(seconds: u64) -> Seq<char> {
    "hello from rust webserver after "@ + decimal_digits(seconds as nat)
        + " seconds delay, thanks for being patient"@
}

/// The view of an encoding attempt: the text, or the encoder's complaint.
pub open spec fn text_result(r: Result<String, String>) -> Result<Seq<char>, Seq<char>> {
    match r {
        Ok(s) => Ok(s@),
        Err(e) => Err(e@),
    }
}

/// The response to a draw: success with a hint on an even draw, an empty 503
/// on an odd one.
pub open spec fn flaky_response(draw: u32) -> ResponseView {
    if draw % 2 == 0 {
        plain(Status::Okay, try_again())
    } else {
        plain(Status::ServiceUnavailable, Seq::<char>::empty())
    }
}

/// What the delay route does with its path parameter.
#[derive(Debug)]
pub enum DelayPlan {
    /// Answer at once, without waiting.
    Reject(Response),
    /// Hold the worker for `seconds`, then answer.
    Wait { seconds: u64, response: Response },
}

/// What the delay route owes for a path parameter: `None` where the
/// dispatcher found no parameter.
pub open spec fn delay_plan(param: Option<Seq<char>>, plan: DelayPlan) -> bool {
    match param {
        None => plan matches DelayPlan::Reject(res) && res@ == plain(
            Status::BadRequest,
            Seq::<char>::empty(),
        ),
        Some(s) => match seconds_of(s) {
            None => plan matches DelayPlan::Reject(res) && res@ == plain(
                Status::BadRequest,
                bad_delay(),
            ),
            Some(n) => plan matches DelayPlan::Wait { seconds, response } && seconds == n
                && response@ == plain(Status::Okay, delay_message(n)),
        },
    }
}

/// The response to a finished encoding: the text with 200, or the encoder's
/// complaint with 500.
pub open spec fn encoded_response(encoded: Result<Seq<char>, Seq<char>>) -> ResponseView {
    match encoded {
        Ok(payload) => plain(Status::Okay, payload),
        Err(e) => plain(Status::InternalServerError, e),
    }
}

/// The response to a create request: the payload echoed with 201 where it
/// decoded to a post, the decoder's complaint with 400 where it did not.
pub open spec fn create_response(payload: Seq<char>, parsed: Result<Post, String>) -> ResponseView {
    match parsed {
        Ok(_) => plain(Status::Created, payload),
        Err(e) => plain(Status::BadRequest, e@),
    }
}

/// The store after a create request on `before`.
pub open spec fn create_effect(before: Seq<PostView>, parsed: Result<Post, String>) -> Seq<
    PostView,
> {
    match parsed {
        Ok(post) => before.push(post@),
        Err(_) => before,
    }
}

/// What became of the `id` path parameter: `None` where the dispatcher found
/// none, else what reading it as a UUID gave.
pub open spec fn parsed_param(param: Option<Seq<char>>) -> Option<Result<u128, Seq<char>>> {
    match param {
        None => None,
        Some(s) => Some(uuid_parsed(s)),
    }
}

/// The view of a parse outcome: the parser's complaint as characters.
pub open spec fn parsed_view(parsed: Option<Result<u128, String>>) -> Option<
    Result<u128, Seq<char>>,
> {
    match parsed {
        None => None,
        Some(outcome) => Some(outcome_view(outcome)),
    }
}

/// The identifier that a parse outcome gives, or the 400 to answer with: an
/// empty one for a missing parameter, one with the parser's complaint for a
/// parameter that is no UUID.
pub open spec fn id_of(parsed: Option<Result<u128, Seq<char>>>) -> Result<u128, ResponseView> {
    match parsed {
        None => Err(plain(Status::BadRequest, Seq::<char>::empty())),
        Some(Ok(id)) => Ok(id),
        Some(Err(e)) => Err(plain(Status::BadRequest, e)),
    }
}

/// What reading the `id` path parameter gives: the identifier, or the 400 to
/// answer with.
pub open spec fn id_outcome(param: Option<Seq<char>>) -> Result<u128, ResponseView> {
    id_of(parsed_param(param))
}

/// What `store` owes for a parse outcome: the 400 of [`id_of`], an empty 404
/// for an identifier that no post carries, else the oldest post that carries
/// the identifier.
pub open spec fn answer_outcome(
    store: Seq<PostView>,
    parsed: Option<Result<u128, Seq<char>>>,
    r: Result<Post, Response>,
) -> bool {
    match id_of(parsed) {
        Err(res) => r matches Err(got) && got@ == res,
        Ok(id) => if has_no_id(store, id) {
            r matches Err(got) && got@ == plain(Status::NotFound, Seq::<char>::empty())
        } else {
            r matches Ok(post) && exists|i: int|
                is_first_with_id(store, id, i) && post@ == #[trigger] store[i]
        },
    }
}

/// What a lookup in `store` owes for the `id` path parameter.
pub open spec fn lookup_outcome(
    store: Seq<PostView>,
    param: Option<Seq<char>>,
    r: Result<Post, Response>,
) -> bool {
    answer_outcome(store, parsed_param(param), r)
}

/// The view of a borrowed path parameter.
pub open spec fn param_view(param: Option<&str>) -> Option<Seq<char>> {
    match param {
        Some(s) => Some(s@),
        None => None,
    }
}

/// Answers the root route.
pub struct GetHelloworldHandler {}

impl GetHelloworldHandler {
    pub fn handle(&self) -> (r: Response)
        ensures
            r@ == plain(Status::Okay, greeting()),
    {
        Response::with_body(Status::Okay, String::from_str("hello from rust webserver"))
    }
}

/// Answers with the request's own headers.
pub struct GetHeaders {}

impl GetHeaders {
    /// `rendered` is the text of the request's headers.
    pub fn handle(&self, rendered: String) -> (r: Response)
        ensures
            r@ == plain(Status::Okay, rendered@),
    {
        Response::with_body(Status::Okay, rendered)
    }
}

/// Fails about every other request, on purpose.
pub struct Resp503 {}

impl Resp503 {
    /// The response that a given draw leads to.
    pub fn respond(draw: u32) -> (r: Response)
        ensures
            r@ == flaky_response(draw),
    {
        if draw % 2 == 0 {
            Response::with_body(Status::Okay, String::from_str("try again for 503"))
        } else {
            Response::with_status(Status::ServiceUnavailable)
        }
    }

    /// Draws a number below ten and answers as [`Resp503::respond`] says.
    pub fn handle(&self) -> (r: Response)
        ensures
            exists|draw: u32| draw < 10 && r@ == #[trigger] flaky_response(draw),
    {
        let draw = draw_below_ten();
        Self::respond(draw)
    }
}

/// Answers after a wait that the request asks for.
pub struct RespDelay {}

impl RespDelay {
    /// Decides on the wait before any of it has passed: a parameter that is
    /// missing or spells no number of seconds is turned down at once.
    pub fn handle(&self, param: Option<&str>) -> (r: DelayPlan)
        ensures
            delay_plan(param_view(param), r),
    {
        match param {
            None => DelayPlan::Reject(Response::with_status(Status::BadRequest)),
            Some(s) => match parse_seconds(s) {
                None => DelayPlan::Reject(
                    Response::with_body(
                        Status::BadRequest,
                        String::from_str("delay must be a non-negative whole number of seconds"),
                    ),
                ),
                Some(seconds) => {
                    let mut body = String::from_str("hello from rust webserver after ");
                    let digits = decimal(seconds);
                    body.append(digits.as_str());
                    body.append(" seconds delay, thanks for being patient");
                    DelayPlan::Wait { seconds, response: Response::with_body(Status::Okay, body) }
                },
            },
        }
    }
}

/// Lists the feed.
pub struct PostFeedHandler {
    database: Arc<Mutex<Database>>,
}

impl PostFeedHandler {
    /// The lock that this handler reads the store through.
    pub closed spec fn store(&self) -> Arc<Mutex<Database>> {
        self.database
    }

    pub fn new(database: Arc<Mutex<Database>>) -> (r: PostFeedHandler)
        ensures
            r.store() == database,
    {
        PostFeedHandler { database }
    }

    /// All posts of `db`, oldest first.
    pub fn list(db: &Database) -> (r: Vec<Post>)
        ensures
            views_of(r@) == db@,
    {
        db.snapshot()
    }

    /// Takes the lock and copies the posts that the store holds at that
    /// moment, oldest first.
    pub fn posts(&self) -> (r: Vec<Post>) {
        let guard = lock(&self.database);
        Self::list(held(&guard))
    }

    /// The response once the posts have been encoded.
    pub fn handle(&self, encoded: Result<String, String>) -> (r: Response)
        ensures
            r@ == encoded_response(text_result(encoded)),
    {
        match encoded {
            Ok(payload) => Response::with_body(Status::Okay, payload),
            Err(e) => Response::with_body(Status::InternalServerError, e),
        }
    }
}

/// Adds a post to the feed.
pub struct PostPostHandler {
    database: Arc<Mutex<Database>>,
}

impl PostPostHandler {
    /// The lock that this handler changes the store through.
    pub closed spec fn store(&self) -> Arc<Mutex<Database>> {
        self.database
    }

    pub fn new(database: Arc<Mutex<Database>>) -> (r: PostPostHandler)
        ensures
            r.store() == database,
    {
        PostPostHandler { database }
    }

    /// Carries out a create request on `db`. `payload` is the request body
    /// and `parsed` what decoding it as a post gave. A post that decoded is
    /// appended as it is, with the identifier and the time that the client
    /// chose; a body that did not decode leaves `db` untouched.
    pub fn create(db: &mut Database, payload: String, parsed: Result<Post, String>) -> (r: Response)
        ensures
            r@ == create_response(payload@, parsed),
            final(db)@ == create_effect(old(db)@, parsed),
    {
        match parsed {
            Ok(post) => {
                db.add_post(post);
                Response::with_body(Status::Created, payload)
            },
            Err(e) => Response::with_body(Status::BadRequest, e),
        }
    }

    /// The response to a request whose body could not be read as text: 400
    /// with the reader's complaint. Nothing is added to the store.
    pub fn unreadable(complaint: String) -> (r: Response)
        ensures
            r@ == plain(Status::BadRequest, complaint@),
    {
        Response::with_body(Status::BadRequest, complaint)
    }

    /// Takes the lock and carries out the create request on the store.
    pub fn handle(&self, payload: String, parsed: Result<Post, String>) -> (r: Response)
        ensures
            r@ == create_response(payload@, parsed),
    {
        let mut guard = lock(&self.database);
        let db = held_mut(&mut guard);
        Self::create(db, payload, parsed)
    }
}

/// Serves one post by its identifier.
pub struct PostHandler {
    database: Arc<Mutex<Database>>,
}

impl PostHandler {
    /// The lock that this handler reads the store through.
    pub closed spec fn store(&self) -> Arc<Mutex<Database>> {
        self.database
    }

    pub fn new(database: Arc<Mutex<Database>>) -> (r: PostHandler)
        ensures
            r.store() == database,
    {
        PostHandler { database }
    }

    /// Reads the `id` path parameter as a UUID: `None` where the dispatcher
    /// found no parameter.
    fn parse_param(param: Option<&str>) -> (r: Option<Result<u128, String>>)
        ensures
            parsed_view(r) == parsed_param(param_view(param)),
    {
        match param {
            None => None,
            Some(s) => Some(parse_uuid(s)),
        }
    }

    /// The identifier that a parse outcome gives, or the 400 to answer with.
    pub fn accept_id(parsed: Option<Result<u128, String>>) -> (r: Result<u128, Response>)
        ensures
            match id_of(parsed_view(parsed)) {
                Ok(id) => r == Ok::<u128, Response>(id),
                Err(res) => r matches Err(got) && got@ == res,
            },
    {
        match parsed {
            None => Err(Response::with_status(Status::BadRequest)),
            Some(Ok(id)) => Ok(id),
            Some(Err(e)) => Err(Response::with_body(Status::BadRequest, e)),
        }
    }

    /// Reads the `id` path parameter: `None` where the dispatcher found none.
    pub fn read_id(param: Option<&str>) -> (r: Result<u128, Response>)
        ensures
            match id_outcome(param_view(param)) {
                Ok(id) => r == Ok::<u128, Response>(id),
                Err(res) => r matches Err(got) && got@ == res,
            },
    {
        Self::accept_id(Self::parse_param(param))
    }

    /// Answers from `db` once the parameter has been read. `parsed` is `None`
    /// where the dispatcher found no parameter, else what reading it as a
    /// UUID gave. The answer is the post, or the response that says why there
    /// is none: 400 for a parameter that is missing or no UUID, an empty 404
    /// for an identifier that no post carries.
    pub fn answer(db: &Database, parsed: Option<Result<u128, String>>) -> (r: Result<
        Post,
        Response,
    >)
        ensures
            answer_outcome(db@, parsed_view(parsed), r),
    {
        match Self::accept_id(parsed) {
            Err(res) => Err(res),
            Ok(id) => match db.find(id) {
                Some(post) => Ok(post),
                None => Err(Response::with_status(Status::NotFound)),
            },
        }
    }

    /// Looks the requested post up in `db`: reads the parameter as a UUID
    /// and answers as [`PostHandler::answer`] says.
    pub fn lookup(db: &Database, param: Option<&str>) -> (r: Result<Post, Response>)
        ensures
            lookup_outcome(db@, param_view(param), r),
    {
        Self::answer(db, Self::parse_param(param))
    }

    /// Takes the lock and looks for the oldest post that carries `id` in
    /// what the store holds at that moment.
    pub fn find_post(&self, id: u128) -> (r: Option<Post>)
        ensures
            exists|store: Seq<PostView>| #[trigger] find_outcome(store, id, r),
            r matches Some(post) ==> post@.uuid == id,
    {
        let guard = lock(&self.database);
        let db = held(&guard);
        let r = db.find(id);
        assert(find_outcome(db@, id, r));
        r
    }

    /// Takes the lock and looks the requested post up in the store.
    pub fn find(&self, param: Option<&str>) -> (r: Result<Post, Response>)
        ensures
            exists|store: Seq<PostView>| #[trigger] lookup_outcome(store, param_view(param), r),
    {
        let guard = lock(&self.database);
        let db = held(&guard);
        let r = Self::lookup(db, param);
        assert(lookup_outcome(db@, param_view(param), r));
        r
    }

    /// The response once the post that was found has been encoded.
    pub fn handle(&self, encoded: Result<String, String>) -> (r: Response)
        ensures
            r@ == encoded_response(text_result(encoded)),
    {
        match encoded {
            Ok(payload) => Response::with_body(Status::Okay, payload),
            Err(e) => Response::with_body(Status::InternalServerError, e),
        }
    }
}

/// The handlers of all routes. The three that serve posts hold the same
/// store.
pub struct Handlers {
    pub post_feed: PostFeedHandler,
    pub post_post: PostPostHandler,
    pub post: PostHandler,
    pub get_helloworld: GetHelloworldHandler,
    pub get_headers: GetHeaders,
    pub resp_503: Resp503,
    pub resp_delay: RespDelay,
}

impl Handlers {
    /// Puts `db` behind a lock and hands that one lock to every handler that
    /// serves posts: the store they share starts with the posts of `db`, in
    /// their order.
    pub fn new(db: Database) -> (r: Handlers)
        ensures
            r.post_feed.store() == r.post_post.store(),
            r.post_post.store() == r.post.store(),
            made_with(*r.post_feed.store()) == db@,
    {
        let database = Arc::new(new_lock(db));
        Handlers {
            post_feed: PostFeedHandler::new(share(&database)),
            post_post: PostPostHandler::new(share(&database)),
            post: PostHandler::new(share(&database)),
            get_helloworld: GetHelloworldHandler {  },
            get_headers: GetHeaders {  },
            resp_503: Resp503 {  },
            resp_delay: RespDelay {  },
        }
    }
}

/// The step that runs on every response a handler has produced.
pub struct JsonAfterMiddleware;

impl JsonAfterMiddleware {
    /// Announces the body as JSON, whatever the handler had announced, and
    /// leaves status and body alone.
    pub fn after(&self, res: Response) -> (r: Response)
        ensures
            r@ == as_json(res@),
    {
        Response { status: res.status, body: res.body, content_type: Some(MediaType::Json) }
    }
}

/// A post that a create request added is served under its identifier, as
/// long as no post stored before it carries the same identifier: a lookup
/// with a parameter that reads as that identifier answers with exactly that
/// post, whatever was created after it.
pub proof fn created_post_is_served(
    before: Seq<PostView>,
    post: Post,
    later: Seq<PostView>,
    text: Seq<char>,
    r: Result<Post, Response>,
)
    requires
        has_no_id(before, post@.uuid),
        uuid_parsed(text) == Ok::<u128, Seq<char>>(post@.uuid),
        lookup_outcome(create_effect(before, Ok(post)) + later, Some(text), r),
    ensures
        (create_effect(before, Ok(post)) + later).contains(post@),
        r matches Ok(found) && found@ == post@,
{
    added_post_is_listed_and_found(before, post@, later);
}

/// A create request whose body did not decode changes nothing: the store
/// afterwards is the store before.
pub proof fn rejected_create_adds_nothing(before: Seq<PostView>, complaint: String)
    ensures
        create_effect(before, Err(complaint)) == before,
        create_response(Seq::<char>::empty(), Err(complaint)).status == Status::BadRequest,
{
}

/// A parameter that reads as a UUID which no stored post carries is answered
/// with an empty 404.
pub proof fn unknown_id_is_not_found(
    store: Seq<PostView>,
    text: Seq<char>,
    id: u128,
    r: Result<Post, Response>,
)
    requires
        uuid_parsed(text) == Ok::<u128, Seq<char>>(id),
        has_no_id(store, id),
        lookup_outcome(store, Some(text), r),
    ensures
        r matches Err(res) && res@ == plain(Status::NotFound, Seq::<char>::empty()),
{
}

/// A parameter that does not read as a UUID is answered with 400 and the
/// parser's complaint, whatever the store holds.
pub proof fn malformed_id_is_bad_request(
    store: Seq<PostView>,
    text: Seq<char>,
    complaint: Seq<char>,
    r: Result<Post, Response>,
)
    requires
        uuid_parsed(text) == Err::<u128, Seq<char>>(complaint),
        lookup_outcome(store, Some(text), r),
    ensures
        r matches Err(res) && res@ == plain(Status::BadRequest, complaint),
{
}

/// A delay that was accepted is named in the body that follows the wait, and
/// that text, read back, is the number of seconds waited.
pub proof fn delay_message_names_the_delay(seconds: u64)
    ensures
        delay_message(seconds).subrange(
            32,
            32 + decimal_digits(seconds as nat).len() as int,
        ) == decimal_digits(seconds as nat),
        seconds_of(decimal_digits(seconds as nat)) == Some(seconds),
{
    reveal_strlit("hello from rust webserver after ");
    decimal_text_reads_back(seconds);
    let head = "hello from rust webserver after "@;
    let digits = decimal_digits(seconds as nat);
    let tail = " seconds delay, thanks for being patient"@;
    assert(head.len() == 32);
    assert((head + digits + tail).subrange(32, 32 + digits.len() as int) =~= digits);
}

} // verus!
