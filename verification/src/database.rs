//! The store: every post of the feed, oldest first.

use crate::models::{Post, PostView};
use vstd::prelude::*;

verus! {

/// The views of a run of posts, in the same order.
pub open spec fn views_of(posts: Seq<Post>) -> Seq<PostView> {
    posts.map_values(|p: Post| p@)
}

/// `i` is the position of the oldest post in `posts` that carries `id`.
pub open spec fn is_first_with_id(posts: Seq<PostView>, id: u128, i: int) -> bool {
    &&& 0 <= i < posts.len()
    &&& posts[i].uuid == id
    &&& forall|j: int| 0 <= j < i ==> (#[trigger] posts[j]).uuid != id
}

/// No post in `posts` carries `id`.
pub open spec fn has_no_id(posts: Seq<PostView>, id: u128) -> bool {
    forall|j: int| 0 <= j < posts.len() ==> (#[trigger] posts[j]).uuid != id
}

/// What a lookup by `id` in `posts` owes: nothing where no post carries
/// `id`, else a copy of the oldest post that does.
pub open spec fn find_outcome(posts: Seq<PostView>, id: u128, r: Option<Post>) -> bool {
    match r {
        None => has_no_id(posts, id),
        Some(found) => exists|i: int|
            is_first_with_id(posts, id, i) && found@ == #[trigger] posts[i],
    }
}

/// No two posts in `posts` carry the same identifier.
pub open spec fn ids_distinct(posts: Seq<PostView>) -> bool {
    forall|i: int, j: int|
        0 <= i < j < posts.len() ==> (#[trigger] posts[i]).uuid != (#[trigger] posts[j]).uuid
}

/// An append-only sequence of posts in insertion order.
///
/// The store does not look at identifiers when a post is added: keeping them
/// distinct is up to the callers. A lookup by identifier answers with the
/// oldest post that carries it.
pub struct Database {
    posts: Vec<Post>,
}

impl View for Database {
    type V = Seq<PostView>;

    closed spec fn view(&self) -> Seq<PostView> {
        views_of(self.posts@)
    }
}

impl Database {
    pub fn new() -> (r: Database)
        ensures
            r@ == Seq::<PostView>::empty(),
    {
        let r = Database { posts: Vec::new() };
        assert(r@ =~= Seq::<PostView>::empty());
        r
    }

    /// Appends `post` behind every post already stored.
    pub fn add_post(&mut self, post: Post)
        ensures
            final(self)@ == old(self)@.push(post@),
    {
        self.posts.push(post);
        assert(self@ =~= old(self)@.push(post@));
    }

    /// The stored posts, oldest first.
    pub fn posts(&self) -> (r: &Vec<Post>)
        ensures
            views_of(r@) == self@,
    {
        &self.posts
    }

    /// A copy of the stored posts, oldest first.
    pub fn snapshot(&self) -> (r: Vec<Post>)
        ensures
            views_of(r@) == self@,
    {
        let mut out: Vec<Post> = Vec::new();
        let mut i: usize = 0;
        while i < self.posts.len()
            invariant
                i <= self.posts.len(),
                out.len() == i,
                forall|k: int| 0 <= k < i ==> (#[trigger] out@[k])@ == self.posts@[k]@,
            decreases self.posts.len() - i,
        {
            out.push(self.posts[i].clone());
            i += 1;
        }
        assert(views_of(out@) =~= self@);
        out
    }

    /// The oldest stored post that carries `id`, if there is one.
    pub fn find(&self, id: u128) -> (r: Option<Post>)
        ensures
            find_outcome(self@, id, r),
    {
        let mut i: usize = 0;
        while i < self.posts.len()
            invariant
                i <= self.posts.len(),
                forall|j: int| 0 <= j < i ==> (#[trigger] self@[j]).uuid != id,
            decreases self.posts.len() - i,
        {
            if self.posts[i].uuid() == id {
                let found = self.posts[i].clone();
                assert(is_first_with_id(self@, id, i as int) && found@ == self@[i as int]);
                return Some(found);
            }
            i += 1;
        }
        None
    }

    pub fn len(&self) -> (r: usize)
        ensures
            r == self@.len(),
    {
        self.posts.len()
    }
}

/// The store after each post of `posts` has been added in turn to `start`.
pub open spec fn after_adding(start: Seq<PostView>, posts: Seq<PostView>) -> Seq<PostView> {
    posts.fold_left(start, |s: Seq<PostView>, p: PostView| s.push(p))
}

/// Adding posts one after the other appends them, in that order, to what the
/// store held: none is lost, none is moved, and the length grows by their
/// number.
pub proof fn adding_appends(start: Seq<PostView>, posts: Seq<PostView>)
    ensures
        after_adding(start, posts) == start + posts,
        after_adding(start, posts).len() == start.len() + posts.len(),
        forall|i: int| 0 <= i < start.len() ==> after_adding(start, posts)[i] == start[i],
        forall|i: int|
            0 <= i < posts.len() ==> after_adding(start, posts)[start.len() + i] == posts[i],
    decreases posts.len(),
{
    if posts.len() == 0 {
        assert(after_adding(start, posts) =~= start + posts);
    } else {
        adding_appends(start, posts.drop_last());
        assert(start + posts =~= (start + posts.drop_last()).push(posts.last()));
    }
}

/// A post that was added stays listed whatever is added later, and a lookup
/// by its identifier finds exactly that post, provided that no post stored
/// before it carries the same identifier.
pub proof fn added_post_is_listed_and_found(
    before: Seq<PostView>,
    post: PostView,
    later: Seq<PostView>,
)
    ensures
        (before.push(post) + later).contains(post),
        (before.push(post) + later)[before.len() as int] == post,
        !has_no_id(before.push(post) + later, post.uuid),
        has_no_id(before, post.uuid) ==> is_first_with_id(
            before.push(post) + later,
            post.uuid,
            before.len() as int,
        ),
        has_no_id(before, post.uuid) ==> forall|i: int|
            is_first_with_id(before.push(post) + later, post.uuid, i) ==> i == before.len(),
{
    let all = before.push(post) + later;
    let at = before.len() as int;
    assert(all[at] == post);
    if has_no_id(before, post.uuid) {
        assert forall|j: int| 0 <= j < at implies (#[trigger] all[j]).uuid != post.uuid by {
            assert(all[j] == before[j]);
        }
        assert forall|i: int| is_first_with_id(all, post.uuid, i) implies i == at by {
            if i < at {
                assert(all[i] == before[i]);
            } else if i > at {
                assert(all[at].uuid == post.uuid);
            }
        }
    }
}

/// The order of a listing is the order of insertion: of two posts, the one
/// added first stands first in the store, whatever was added before, between
/// or after them.
pub proof fn insertion_order_is_kept(
    before: Seq<PostView>,
    first: PostView,
    between: Seq<PostView>,
    second: PostView,
    later: Seq<PostView>,
)
    ensures
        ({
            let all = (before.push(first) + between).push(second) + later;
            let i = before.len() as int;
            let j = (before.len() + 1 + between.len()) as int;
            i < j < all.len() && all[i] == first && all[j] == second
        }),
{
}

/// A lookup by `id` in a store whose identifiers are distinct can only
/// answer with the one post that carries `id`.
pub proof fn lookup_is_unambiguous(posts: Seq<PostView>, id: u128, i: int, j: int)
    requires
        ids_distinct(posts),
        0 <= i < posts.len(),
        posts[i].uuid == id,
        is_first_with_id(posts, id, j),
    ensures
        i == j,
{
}

} // verus!
