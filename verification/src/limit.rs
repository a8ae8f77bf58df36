//! Sprite-count limiting.
//!
//! When more sprites are tagged than the configured budget, the surplus is
//! hidden: the first sprites in iteration order stay visible, or, in random
//! mode, a random selection of the same size. Either way exactly the budget
//! stays visible (or every sprite, when fewer are tagged).

use rand::seq::SliceRandom;
use vstd::prelude::*;

verus! {

/// Visibility of a sprite, as handed back to the host engine.
#[derive(Clone, Copy, Debug, PartialEq, Eq, Structural)]
pub enum Visibility {
    /// The sprite inherits visibility from its parent and is drawn.
    Inherited,
    /// The sprite is hidden.
    Hidden,
}

/// Configuration of the sprite-count limiter. A count of zero disables the
/// limitation entirely.
#[derive(Clone, Copy, Debug, PartialEq, Eq, Structural)]
pub struct SpriteCount {
    pub count: u32,
    pub random: bool,
}

/// The limitation settings a host installs: how many sprites may be
/// visible, and whether the surplus is chosen at random.
#[derive(Clone, Copy, Debug, PartialEq, Eq, Structural)]
pub struct PixelLimPlugin {
    pub sprite_count: u32,
    pub random: bool,
}

impl Default for PixelLimPlugin {
    /// The default budget of 32 sprites, hidden in iteration order.
    fn default() -> (r: Self)
        ensures
            r.sprite_count == 32,
            !r.random,
    {
        PixelLimPlugin { sprite_count: 32, random: false }
    }
}

impl PixelLimPlugin {
    pub fn new(sprite_count: u32, random: bool) -> (r: Self)
        ensures
            r.sprite_count == sprite_count,
            r.random == random,
    {
        PixelLimPlugin { sprite_count, random }
    }

    /// The limiter configuration this plugin installs: none when the count
    /// is zero, which disables the limitation.
    pub fn build(&self) -> (r: Option<SpriteCount>)
        ensures
            r == if self.sprite_count != 0 {
                Some(SpriteCount { count: self.sprite_count, random: self.random })
            } else {
                None::<SpriteCount>
            },
    {
        if self.sprite_count != 0 {
            Some(SpriteCount { count: self.sprite_count, random: self.random })
        } else {
            None
        }
    }
}

#[verifier::external_type_specification]
#[verifier::external_body]
pub struct ExThreadRng(rand::rngs::ThreadRng);

/// Relies on rand::thread_rng: returns the thread-local random number
/// generator. Nothing can be promised of it.
#[verifier::external_body]
fn fresh_rng() -> rand::rngs::ThreadRng {
    rand::thread_rng()
}

/// Relies on rand::seq::SliceRandom::shuffle: a Fisher-Yates shuffle that
/// permutes the slice in place by swapping elements, so the multiset of
/// entries (and with it the length) is unchanged; the resulting order is
/// random and nothing more is promised of it.
#[verifier::external_body]
fn shuffle_visibilities(v: &mut Vec<Visibility>, rng: &mut rand::rngs::ThreadRng)
    ensures
        final(v)@.to_multiset() == old(v)@.to_multiset(),
        final(v)@.len() == old(v)@.len(),
{
    v.shuffle(rng);
}

/// The visibility plan in iteration order: the first `limit` sprites stay
/// visible, the rest are hidden.
pub open spec fn spec_plain_visibility(n: nat, limit: int) -> Seq<Visibility> {
    Seq::new(
        n,
        |i: int|
            if i < limit {
                Visibility::Inherited
            } else {
                Visibility::Hidden
            },
    )
}

/// The number of visible entries in a plan.
pub open spec fn spec_visible_count(s: Seq<Visibility>) -> nat {
    s.to_multiset().count(Visibility::Inherited)
}

/// The smaller of the sprite count and the limit, at least zero.
pub open spec fn spec_visible_budget(n: nat, limit: int) -> int {
    if limit < 0 {
        0
    } else if n <= limit {
        n as int
    } else {
        limit
    }
}

/// Exactly the budget stays visible: the plain visibility plan for `n`
/// sprites under `limit` has `min(n, limit)` visible entries.
pub proof fn lemma_visible_count(n: nat, limit: int)
    ensures
        spec_visible_count(spec_plain_visibility(n, limit)) == spec_visible_budget(n, limit),
    decreases n,
{
    broadcast use vstd::multiset::group_multiset_axioms;

    let s = spec_plain_visibility(n, limit);
    s.to_multiset_ensures();
    if n == 0 {
        assert(s =~= Seq::<Visibility>::empty());
        assert(s.to_multiset().count(Visibility::Inherited) == 0);
    } else {
        let m = (n - 1) as nat;
        let prev = spec_plain_visibility(m, limit);
        prev.to_multiset_ensures();
        lemma_visible_count(m, limit);
        let last = if m < limit {
            Visibility::Inherited
        } else {
            Visibility::Hidden
        };
        assert(s =~= prev.push(last));
    }
}

/// Decide which sprites stay visible under a sprite-count budget.
///
/// The result has one entry per sprite in iteration order. Without random
/// mode, the first `count` sprites stay visible and the rest are hidden.
/// In random mode the same plan is dealt out in a random order, so a random
/// selection of the same size stays visible. In both modes the multiset of
/// entries is that of the plain plan, so exactly `min(n, count)` sprites
/// stay visible.
pub fn sprite_count_limiter(n: usize, sc: &SpriteCount) -> (r: Vec<Visibility>)
    ensures
        r@.len() == n,
        !sc.random ==> r@ == spec_plain_visibility(n as nat, sc.count as int),
        r@.to_multiset() == spec_plain_visibility(n as nat, sc.count as int).to_multiset(),
        spec_visible_count(r@) == spec_visible_budget(n as nat, sc.count as int),
{
    let mut v: Vec<Visibility> = Vec::new();
    let mut i: usize = 0;
    while i < n
        invariant
            i <= n,
            v@.len() == i,
            forall|j: int|
                0 <= j < i ==> v@[j] == (if j < sc.count {
                    Visibility::Inherited
                } else {
                    Visibility::Hidden
                }),
        decreases n - i,
    {
        if i < sc.count as usize {
            v.push(Visibility::Inherited);
        } else {
            v.push(Visibility::Hidden);
        }
        i += 1;
    }
    assert(v@ =~= spec_plain_visibility(n as nat, sc.count as int));
    proof {
        lemma_visible_count(n as nat, sc.count as int);
    }
    if sc.random {
        let mut rng = fresh_rng();
        shuffle_visibilities(&mut v, &mut rng);
    }
    v
}

} // verus!
