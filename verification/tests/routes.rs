use post_feed::database::Database;
use post_feed::handlers::{
    DelayPlan, GetHeaders, GetHelloworldHandler, Handlers, JsonAfterMiddleware, PostFeedHandler,
    PostHandler, PostPostHandler, Resp503, RespDelay,
};
use post_feed::models::{Post, Timestamp};
use post_feed::response::{MediaType, Response, Status};
use post_feed::text::{decimal, parse_seconds};
use std::sync::{Arc, Mutex};

const U1: &str = "67e55044-10b1-426f-9247-bb680e5fe0c8";

fn u1() -> u128 {
    uuid::Uuid::parse_str(U1).unwrap().as_u128()
}

fn post_a() -> Post {
    Post::new("The First Post", "This is the first post in our API", "Tensor",
        Timestamp { secs: 1_600_000_000, nanos: 0 }, 0xa1a2a3a4b1b2c1c2d1d2d3d4d5d6d7d8)
}

fn post_b() -> Post {
    Post::new("The next post is better", "Iron is really cool and Rust is awesome too!",
        "Metalman", Timestamp { secs: 1_600_000_001, nanos: 5 }, 0x0102030405060708090a0b0c0d0e0f10)
}

fn same(a: &Post, b: &Post) -> bool {
    a == b
}

fn seeded() -> Handlers {
    let mut db = Database::new();
    db.add_post(post_a());
    db.add_post(post_b());
    Handlers::new(db)
}

fn submitted_post() -> Post {
    Post::new("T", "B", "X", Timestamp { secs: 1_672_531_200, nanos: 0 }, u1())
}

const SUBMITTED_JSON: &str =
    "{\"title\":\"T\",\"body\":\"B\",\"author\":\"X\",\"created_at\":\"2023-01-01T00:00:00Z\",\"uuid\":\"67e55044-10b1-426f-9247-bb680e5fe0c8\"}";

#[test]
fn status_codes() {
    assert_eq!(Status::Okay.code(), 200);
    assert_eq!(Status::Created.code(), 201);
    assert_eq!(Status::BadRequest.code(), 400);
    assert_eq!(Status::NotFound.code(), 404);
    assert_eq!(Status::InternalServerError.code(), 500);
    assert_eq!(Status::ServiceUnavailable.code(), 503);
}

#[test]
fn feed_lists_seeded_posts_in_order() {
    let h = seeded();
    let listed = h.post_feed.posts();
    assert_eq!(listed.len(), 2);
    assert!(same(&listed[0], &post_a()));
    assert!(same(&listed[1], &post_b()));
    let res = h.post_feed.handle(Ok(String::from("[A,B]")));
    assert_eq!(res.status, Status::Okay);
    assert_eq!(res.body, "[A,B]");
    assert_eq!(res.content_type, None);
}

#[test]
fn feed_encoding_failure_is_500() {
    let h = seeded();
    let res = h.post_feed.handle(Err(String::from("cannot encode")));
    assert_eq!(res.status, Status::InternalServerError);
    assert_eq!(res.body, "cannot encode");
}

#[test]
fn feed_of_a_store_is_its_snapshot() {
    let mut db = Database::new();
    db.add_post(post_b());
    db.add_post(post_a());
    let listed = PostFeedHandler::list(&db);
    assert_eq!(listed.len(), 2);
    assert!(same(&listed[0], &post_b()));
    assert!(same(&listed[1], &post_a()));
}

#[test]
fn create_echoes_body_with_201() {
    let h = seeded();
    let res = h.post_post.handle(String::from(SUBMITTED_JSON), Ok(submitted_post()));
    assert_eq!(res.status, Status::Created);
    assert_eq!(res.body, SUBMITTED_JSON);
    let listed = h.post_feed.posts();
    assert_eq!(listed.len(), 3);
    assert!(same(&listed[2], &submitted_post()));
}

#[test]
fn created_post_is_served_by_id() {
    let h = seeded();
    h.post_post.handle(String::from(SUBMITTED_JSON), Ok(submitted_post()));
    let found = h.post.find(Some(U1)).expect("stored");
    assert!(same(&found, &submitted_post()));
    let direct = h.post.find_post(u1()).expect("stored");
    assert!(same(&direct, &submitted_post()));
    let res = h.post.handle(Ok(String::from(SUBMITTED_JSON)));
    assert_eq!(res.status, Status::Okay);
    assert_eq!(res.body, SUBMITTED_JSON);
}

#[test]
fn create_with_malformed_body_is_400_and_adds_nothing() {
    let h = seeded();
    let res = h.post_post.handle(String::from("{\"title\":"), Err(String::from("EOF while parsing")));
    assert_eq!(res.status, Status::BadRequest);
    assert_eq!(res.body, "EOF while parsing");
    assert_eq!(h.post_feed.posts().len(), 2);
}

#[test]
fn create_on_a_store_appends() {
    let mut db = Database::new();
    db.add_post(post_a());
    let res = PostPostHandler::create(&mut db, String::from("body"), Ok(post_b()));
    assert_eq!(res.status, Status::Created);
    assert_eq!(res.body, "body");
    assert_eq!(db.len(), 2);
    assert!(same(&db.posts()[1], &post_b()));
    let res = PostPostHandler::create(&mut db, String::from("junk"), Err(String::from("bad")));
    assert_eq!(res.status, Status::BadRequest);
    assert_eq!(res.body, "bad");
    assert_eq!(db.len(), 2);
}

#[test]
fn get_with_text_that_is_no_uuid_is_400() {
    let h = seeded();
    let res = h.post.find(Some("not-a-uuid")).expect_err("no uuid");
    assert_eq!(res.status, Status::BadRequest);
    let expected = uuid::Uuid::parse_str("not-a-uuid").unwrap_err().to_string();
    assert_eq!(res.body, expected);
    assert!(!res.body.is_empty());
}

#[test]
fn get_without_parameter_is_400() {
    let h = seeded();
    let res = h.post.find(None).expect_err("no parameter");
    assert_eq!(res.status, Status::BadRequest);
    assert_eq!(res.body, "");
}

#[test]
fn get_with_unknown_uuid_is_404() {
    let h = seeded();
    let fresh = uuid::Uuid::new_v4().to_string();
    let res = h.post.find(Some(fresh.as_str())).expect_err("never created");
    assert_eq!(res.status, Status::NotFound);
    assert_eq!(res.body, "");
    assert!(h.post.find_post(u1()).is_none());
}

#[test]
fn read_id_gives_the_value_of_the_uuid() {
    let id = PostHandler::read_id(Some("a1a2a3a4-b1b2-c1c2-d1d2-d3d4d5d6d7d8")).expect("a uuid");
    assert_eq!(id, 0xa1a2a3a4b1b2c1c2d1d2d3d4d5d6d7d8u128);
    let id = PostHandler::read_id(Some("A1A2A3A4B1B2C1C2D1D2D3D4D5D6D7D8")).expect("a uuid");
    assert_eq!(id, 0xa1a2a3a4b1b2c1c2d1d2d3d4d5d6d7d8u128);
    assert_eq!(PostHandler::read_id(Some("")).expect_err("empty").status, Status::BadRequest);
}

#[test]
fn lookup_on_a_store() {
    let mut db = Database::new();
    db.add_post(post_a());
    db.add_post(post_b());
    let got = PostHandler::lookup(&db, Some("01020304-0506-0708-090a-0b0c0d0e0f10")).expect("b");
    assert!(same(&got, &post_b()));
    let res = PostHandler::lookup(&db, Some(U1)).expect_err("unknown");
    assert_eq!(res.status, Status::NotFound);
    let res = PostHandler::lookup(&db, Some("zz")).expect_err("no uuid");
    assert_eq!(res.status, Status::BadRequest);
}

#[test]
fn get_encoding_failure_is_500() {
    let h = seeded();
    let res = h.post.handle(Err(String::from("broken")));
    assert_eq!(res.status, Status::InternalServerError);
    assert_eq!(res.body, "broken");
}

#[test]
fn hello_is_fixed() {
    let res = GetHelloworldHandler {}.handle();
    assert_eq!(res.status, Status::Okay);
    assert_eq!(res.body, "hello from rust webserver");
    assert_eq!(res.content_type, None);
}

#[test]
fn headers_are_echoed() {
    let res = GetHeaders {}.handle(String::from("Host: localhost\r\nAccept: */*\r\n"));
    assert_eq!(res.status, Status::Okay);
    assert_eq!(res.body, "Host: localhost\r\nAccept: */*\r\n");
}

#[test]
fn flaky_even_draw_is_200_odd_is_503() {
    for draw in [0u32, 2, 4, 6, 8] {
        let res = Resp503::respond(draw);
        assert_eq!(res.status, Status::Okay);
        assert_eq!(res.body, "try again for 503");
    }
    for draw in [1u32, 3, 5, 7, 9] {
        let res = Resp503::respond(draw);
        assert_eq!(res.status, Status::ServiceUnavailable);
        assert_eq!(res.body, "");
    }
}

#[test]
fn flaky_gives_both_answers_about_equally_often() {
    let h = Resp503 {};
    let mut ok = 0u32;
    let mut unavailable = 0u32;
    for _ in 0..4000 {
        let res = h.handle();
        match res.status {
            Status::Okay => {
                assert_eq!(res.body, "try again for 503");
                ok += 1;
            }
            Status::ServiceUnavailable => {
                assert_eq!(res.body, "");
                unavailable += 1;
            }
            other => panic!("unexpected status {:?}", other),
        }
    }
    assert_eq!(ok + unavailable, 4000);
    assert!(ok > 1600 && unavailable > 1600);
}

#[test]
fn delay_zero_answers_at_once_with_its_number() {
    match (RespDelay {}).handle(Some("0")) {
        DelayPlan::Wait { seconds, response } => {
            assert_eq!(seconds, 0);
            assert_eq!(response.status, Status::Okay);
            assert_eq!(
                response.body,
                "hello from rust webserver after 0 seconds delay, thanks for being patient"
            );
        }
        DelayPlan::Reject(res) => panic!("rejected: {:?}", res),
    }
}

#[test]
fn delay_one_waits_one_second() {
    match (RespDelay {}).handle(Some("1")) {
        DelayPlan::Wait { seconds, response } => {
            assert_eq!(seconds, 1);
            assert_eq!(response.status, Status::Okay);
            assert!(response.body.contains("1"));
            assert_eq!(
                response.body,
                "hello from rust webserver after 1 seconds delay, thanks for being patient"
            );
        }
        DelayPlan::Reject(res) => panic!("rejected: {:?}", res),
    }
}

#[test]
fn delay_abc_is_400() {
    for bad in ["abc", "", "+", "-1", "1.5", " 1", "1 ", "18446744073709551616", "٣"] {
        match (RespDelay {}).handle(Some(bad)) {
            DelayPlan::Reject(res) => {
                assert_eq!(res.status, Status::BadRequest);
                assert_eq!(res.body, "delay must be a non-negative whole number of seconds");
            }
            DelayPlan::Wait { seconds, .. } => panic!("{:?} read as {}", bad, seconds),
        }
    }
}

#[test]
fn delay_without_parameter_is_400() {
    match (RespDelay {}).handle(None) {
        DelayPlan::Reject(res) => {
            assert_eq!(res.status, Status::BadRequest);
            assert_eq!(res.body, "");
        }
        DelayPlan::Wait { .. } => panic!("no parameter"),
    }
}

#[test]
fn seconds_are_read_as_the_standard_parser_reads_them() {
    for text in ["0", "7", "007", "+12", "1234567890", "18446744073709551615",
        "18446744073709551616", "99999999999999999999999", "", "+", "++1", "-0", "1_0", "0x10", "abc"] {
        assert_eq!(parse_seconds(text), text.parse::<u64>().ok(), "{:?}", text);
    }
    assert_eq!(parse_seconds("18446744073709551615"), Some(u64::MAX));
    assert_eq!(parse_seconds("+12"), Some(12));
}

#[test]
fn decimal_text_of_numbers() {
    assert_eq!(decimal(0), "0");
    assert_eq!(decimal(9), "9");
    assert_eq!(decimal(10), "10");
    assert_eq!(decimal(1234567890), "1234567890");
    assert_eq!(decimal(u64::MAX), "18446744073709551615");
    for n in [0u64, 5, 99, 100, 4096, u64::MAX] {
        assert_eq!(parse_seconds(decimal(n).as_str()), Some(n));
    }
}

#[test]
fn shaping_sets_json_and_keeps_the_rest() {
    let shaped = JsonAfterMiddleware.after(Response::with_body(Status::NotFound, String::from("x")));
    assert_eq!(shaped.status, Status::NotFound);
    assert_eq!(shaped.body, "x");
    assert_eq!(shaped.content_type, Some(MediaType::Json));
    let other = Response {
        status: Status::Okay,
        body: String::from("plain"),
        content_type: Some(MediaType::PlainText),
    };
    let shaped = JsonAfterMiddleware.after(other);
    assert_eq!(shaped.content_type, Some(MediaType::Json));
    assert_eq!(shaped.body, "plain");
    let again = JsonAfterMiddleware.after(shaped);
    assert_eq!(again.content_type, Some(MediaType::Json));
    assert_eq!(again.status, Status::Okay);
}

#[test]
fn bare_status_response_is_empty() {
    let res = Response::with_status(Status::ServiceUnavailable);
    assert_eq!(res.status, Status::ServiceUnavailable);
    assert_eq!(res.body, "");
    assert_eq!(res.content_type, None);
}

#[test]
fn handlers_built_apart_share_a_store_they_are_given() {
    let store = Arc::new(Mutex::new(Database::new()));
    let create = PostPostHandler::new(store.clone());
    let feed = PostFeedHandler::new(store.clone());
    let get = PostHandler::new(store);
    create.handle(String::from("x"), Ok(post_a()));
    assert_eq!(feed.posts().len(), 1);
    assert!(same(&get.find_post(post_a().uuid()).expect("stored"), &post_a()));
}

#[test]
fn many_creates_lose_nothing() {
    let h = Handlers::new(Database::new());
    for i in 0..200u128 {
        let res = h.post_post.handle(String::from("p"), Ok(Post::new("t", "b", "a",
            Timestamp { secs: 0, nanos: 0 }, i)));
        assert_eq!(res.status, Status::Created);
    }
    let listed = h.post_feed.posts();
    assert_eq!(listed.len(), 200);
    for i in 0..200u128 {
        assert_eq!(listed[i as usize].uuid(), i);
        assert!(h.post.find_post(i).is_some());
    }
}

#[test]
fn handlers_start_with_the_posts_they_were_given() {
    let mut db = Database::new();
    let a = Post::new("T", "B", "X", Timestamp { secs: 1_672_531_200, nanos: 0 },
        uuid::Uuid::parse_str("123e4567-e89b-12d3-a456-426614174000").unwrap().as_u128());
    db.add_post(a.clone());
    let h = Handlers::new(db);
    assert_eq!(h.post_feed.posts(), vec![a.clone()]);
    assert_eq!(h.post.find_post(a.uuid()), Some(a.clone()));
    h.post_post.handle(String::from("x"), Ok(post_b()));
    assert_eq!(h.post_feed.posts(), vec![a, post_b()]);
    assert_eq!(h.post.find_post(post_b().uuid()), Some(post_b()));
    let empty = Handlers::new(Database::new());
    assert!(empty.post_feed.posts().is_empty());
}

#[test]
fn answer_from_a_parse_outcome() {
    let mut db = Database::new();
    db.add_post(post_a());
    db.add_post(post_b());
    let got = PostHandler::answer(&db, Some(Ok(post_b().uuid()))).expect("stored");
    assert_eq!(got, post_b());
    let res = PostHandler::answer(&db, Some(Ok(77))).expect_err("unknown");
    assert_eq!(res, Response::with_status(Status::NotFound));
    let res = PostHandler::answer(&db, Some(Err(String::from("bad length")))).expect_err("no uuid");
    assert_eq!(res, Response::with_body(Status::BadRequest, String::from("bad length")));
    let res = PostHandler::answer(&db, None).expect_err("no parameter");
    assert_eq!(res, Response::with_status(Status::BadRequest));
}

#[test]
fn accept_id_maps_each_outcome() {
    assert_eq!(PostHandler::accept_id(Some(Ok(5))), Ok(5));
    assert_eq!(
        PostHandler::accept_id(Some(Err(String::from("bad")))),
        Err(Response::with_body(Status::BadRequest, String::from("bad")))
    );
    assert_eq!(PostHandler::accept_id(None), Err(Response::with_status(Status::BadRequest)));
}

#[test]
fn unreadable_body_is_400() {
    let res = PostPostHandler::unreadable(String::from("stream did not contain valid UTF-8"));
    assert_eq!(res.status, Status::BadRequest);
    assert_eq!(res.body, "stream did not contain valid UTF-8");
    assert_eq!(res.content_type, None);
}
