//! The records kept by the feed.

use vstd::prelude::*;

verus! {

/// A point in time on the UTC scale: whole seconds since the Unix epoch and
/// the nanoseconds past that second.
#[derive(Clone, Copy, Debug, PartialEq, Eq, Structural)]
pub struct Timestamp {
    pub secs: i64,
    pub nanos: u32,
}

/// The first second that a timestamp can name: the start of the year
/// -262143 of the proleptic Gregorian calendar.
pub const MIN_SECS: i64 = -8_334_601_228_800;

/// The last second that a timestamp can name: the end of the year 262142.
pub const MAX_SECS: i64 = 8_210_266_876_799;

impl Timestamp {
    /// The second lies in the supported range, and the nanoseconds are below
    /// one second, or below two in the last second of a minute, where they
    /// stand for a leap second.
    pub open spec fn is_valid(self) -> bool {
        &&& MIN_SECS <= self.secs <= MAX_SECS
        &&& self.nanos < 2_000_000_000
        &&& self.nanos >= 1_000_000_000 ==> (self.secs - MIN_SECS) % 60 == 59
    }

    /// Tells whether the timestamp is valid.
    pub fn valid(&self) -> (r: bool)
        ensures
            r == self.is_valid(),
    {
        if self.secs < MIN_SECS || self.secs > MAX_SECS || self.nanos >= 2_000_000_000 {
            false
        } else if self.nanos < 1_000_000_000 {
            true
        } else {
            let since_first: i64 = self.secs - MIN_SECS;
            since_first % 60 == 59
        }
    }
}

/// What a [`Post`] is in contracts: its five fields as plain values.
pub struct PostView {
    pub title: Seq<char>,
    pub body: Seq<char>,
    pub author: Seq<char>,
    pub created_at: Timestamp,
    pub uuid: u128,
}

/// One entry of the feed. A post never changes once it has been built.
///
/// The identifier is the 128-bit value of a UUID. It is supplied by whoever
/// builds the post; nothing here generates or checks it.
#[derive(Debug)]
pub struct Post {
    title: String,
    body: String,
    author: String,
    created_at: Timestamp,
    uuid: u128,
}

impl Post {
    #[verifier::type_invariant]
    spec fn well_formed(self) -> bool {
        self.created_at.is_valid()
    }
}

impl View for Post {
    type V = PostView;

    closed spec fn view(&self) -> PostView {
        PostView {
            title: self.title@,
            body: self.body@,
            author: self.author@,
            created_at: self.created_at,
            uuid: self.uuid,
        }
    }
}

impl Clone for Post {
    fn clone(&self) -> (r: Post)
        ensures
            r@ == self@,
    {
        proof {
            use_type_invariant(self);
        }
        Post {
            title: self.title.clone(),
            body: self.body.clone(),
            author: self.author.clone(),
            created_at: self.created_at,
            uuid: self.uuid,
        }
    }
}

impl PartialEq for Post {
    fn eq(&self, other: &Post) -> (r: bool) {
        self.title == other.title && self.body == other.body && self.author == other.author
            && self.created_at == other.created_at && self.uuid == other.uuid
    }
}

impl vstd::std_specs::cmp::PartialEqSpecImpl for Post {
    open spec fn obeys_eq_spec() -> bool {
        true
    }

    /// Two posts are equal where all five fields are.
    open spec fn eq_spec(&self, other: &Post) -> bool {
        self@ == other@
    }
}

impl Post {
    /// Builds a post from its five fields. The time must be a valid
    /// timestamp.
    pub fn new(title: &str, body: &str, author: &str, created_at: Timestamp, uuid: u128) -> (r: Post)
        requires
            created_at.is_valid(),
        ensures
            r@ == (PostView {
                title: title@,
                body: body@,
                author: author@,
                created_at: created_at,
                uuid: uuid,
            }),
    {
        Post {
            title: String::from_str(title),
            body: String::from_str(body),
            author: String::from_str(author),
            created_at,
            uuid,
        }
    }

    pub fn title(&self) -> (r: &str)
        ensures
            r@ == self@.title,
    {
        self.title.as_str()
    }

    pub fn body(&self) -> (r: &str)
        ensures
            r@ == self@.body,
    {
        self.body.as_str()
    }

    pub fn author(&self) -> (r: &str)
        ensures
            r@ == self@.author,
    {
        self.author.as_str()
    }

    /// The time of creation, which is a valid timestamp.
    pub fn created_at(&self) -> (r: Timestamp)
        ensures
            r == self@.created_at,
            r.is_valid(),
    {
        proof {
            use_type_invariant(self);
        }
        self.created_at
    }

    pub fn uuid(&self) -> (r: u128)
        ensures
            r == self@.uuid,
    {
        self.uuid
    }
}

} // verus!
