//! Filtering a feed page down to plain posts and drawing one of them.

use crate::document::Record;
use rand::rngs::StdRng;
use rand::Rng;
use vstd::prelude::*;

verus! {

/// The author of a post.
pub struct Author {
    pub handle: String,
    pub display_name: Option<String>,
}

/// One post of a feed page.
pub struct Post {
    pub author: Author,
    pub is_reply: bool,
    pub has_embed: bool,
    pub record: Record,
}

/// Why no post could be selected.
#[derive(Debug, Clone, Copy, PartialEq, Eq)]
pub enum SelectError {
    /// No post of the page is eligible.
    NoEligiblePost,
}

impl Post {
    /// A post is eligible when it is neither a reply nor carries an embed.
    pub open spec fn eligible_spec(&self) -> bool {
        !self.is_reply && !self.has_embed
    }

    pub fn is_eligible(&self) -> (r: bool)
        ensures
            r == self.eligible_spec(),
    {
        !self.is_reply && !self.has_embed
    }
}

/// The eligibility test, as a predicate on posts.
pub open spec fn eligible_pred() -> spec_fn(Post) -> bool {
    |p: Post| p.eligible_spec()
}

/// The eligible posts of a page, in page order.
pub open spec fn eligible_posts(posts: Seq<Post>) -> Seq<Post> {
    posts.filter(eligible_pred())
}

#[verifier::external_type_specification]
#[verifier::external_body]
pub struct ExStdRng(StdRng);

/// Relies on rand's `Rng::gen_range` on `0..n`: a value drawn uniformly from
/// `0..n`; it panics on an empty range, which `requires` leaves out.
#[verifier::external_body]
fn draw_index(rng: &mut StdRng, n: usize) -> (r: usize)
    requires
        n > 0,
    ensures
        r < n,
{
    rng.gen_range(0..n)
}

/// The positions of the eligible posts of a page, in page order.
pub fn eligible_positions(posts: &Vec<Post>) -> (r: Vec<usize>)
    ensures
        r@.len() == eligible_posts(posts@).len(),
        forall|k: int| 0 <= k < r@.len() ==> r@[k] < posts@.len(),
        forall|k: int| 0 <= k < r@.len() ==> posts@[r@[k] as int] == eligible_posts(posts@)[k],
{
    let mut r: Vec<usize> = Vec::new();
    let mut i: usize = 0;
    while i < posts.len()
        invariant
            i <= posts@.len(),
            r@.len() == eligible_posts(posts@.subrange(0, i as int)).len(),
            forall|k: int| 0 <= k < r@.len() ==> r@[k] < posts@.len(),
            forall|k: int|
                0 <= k < r@.len() ==> posts@[r@[k] as int] == eligible_posts(
                    posts@.subrange(0, i as int),
                )[k],
        decreases posts.len() - i,
    {
        proof {
            assert(posts@.subrange(0, i + 1) =~= posts@.subrange(0, i as int).push(posts@[i as int]));
            posts@.subrange(0, i as int).lemma_filter_push(posts@[i as int], eligible_pred());
        }
        if posts[i].is_eligible() {
            r.push(i);
        }
        i += 1;
    }
    assert(posts@.subrange(0, posts@.len() as int) =~= posts@);
    r
}

/// Picks the eligible post at position `draw` (counted modulo their number).
pub fn choose_eligible<'a>(posts: &'a Vec<Post>, draw: usize) -> (r: Result<&'a Post, SelectError>)
    ensures
        r is Err <==> eligible_posts(posts@).len() == 0,
        r is Err ==> r == Err::<&Post, SelectError>(SelectError::NoEligiblePost),
        r matches Ok(p) ==> *p == eligible_posts(posts@)[draw as int % eligible_posts(posts@).len() as int],
{
    let positions = eligible_positions(posts);
    if positions.len() == 0 {
        Err(SelectError::NoEligiblePost)
    } else {
        let k = draw % positions.len();
        Ok(&posts[positions[k]])
    }
}

/// Draws one eligible post of the page at random, each with equal chance.
pub fn select_one<'a>(posts: &'a Vec<Post>, rng: &mut StdRng) -> (r: Result<&'a Post, SelectError>)
    ensures
        r is Err <==> eligible_posts(posts@).len() == 0,
        r is Err ==> r == Err::<&Post, SelectError>(SelectError::NoEligiblePost),
        r matches Ok(p) ==> eligible_posts(posts@).contains(*p),
        r matches Ok(p) ==> posts@.contains(*p) && p.eligible_spec(),
{
    let n = eligible_positions(posts).len();
    if n == 0 {
        return Err(SelectError::NoEligiblePost);
    }
    let draw = draw_index(rng, n);
    let r = choose_eligible(posts, draw);
    proof {
        if let Ok(p) = r {
            eligible_posts_are_the_plain_posts(posts@);
        }
    }
    r
}

/// The eligible subset of a page is exactly the set of its posts that are
/// neither replies nor carry an embed: each of its members is such a post of
/// the page, and each such post of the page is a member. It is empty exactly
/// when no post of the page is eligible.
pub proof fn eligible_posts_are_the_plain_posts(posts: Seq<Post>)
    ensures
        forall|p: Post| #[trigger]
            eligible_posts(posts).contains(p) <==> (posts.contains(p) && p.eligible_spec()),
        eligible_posts(posts).len() == 0 <==> (forall|i: int|
            0 <= i < posts.len() ==> !(#[trigger] posts[i]).eligible_spec()),
{
    assert forall|p: Post| #[trigger]
        eligible_posts(posts).contains(p) implies (posts.contains(p) && p.eligible_spec()) by {
        posts.lemma_filter_contains_rev(eligible_pred(), p);
        let k = choose|k: int| 0 <= k < eligible_posts(posts).len() && eligible_posts(posts)[k] == p;
        posts.lemma_filter_pred(eligible_pred(), k);
    }
    assert forall|p: Post| (posts.contains(p) && p.eligible_spec()) implies #[trigger]
        eligible_posts(posts).contains(p) by {
        let i = choose|i: int| 0 <= i < posts.len() && posts[i] == p;
        posts.lemma_filter_contains(eligible_pred(), i);
    }
    if eligible_posts(posts).len() == 0 {
        assert forall|i: int| 0 <= i < posts.len() implies !(#[trigger] posts[i]).eligible_spec() by {
            if posts[i].eligible_spec() {
                posts.lemma_filter_contains(eligible_pred(), i);
            }
        }
    } else {
        posts.lemma_filter_pred(eligible_pred(), 0);
        let p = eligible_posts(posts)[0];
        assert(eligible_posts(posts).contains(p));
        posts.lemma_filter_contains_rev(eligible_pred(), p);
    }
}

} // verus!
