use vstd::prelude::*;

use crate::handle::{teardown_of, CortexView};
use crate::negotiate::{
    collision_error, run, CreateOutcome, Negotiation, Step, MAX_ATTEMPTS,
};

verus! {

/// Each key paired with a collision.
pub open spec fn collisions(keys: Seq<i32>) -> Seq<(i32, CreateOutcome)> {
    keys.map_values(|k: i32| (k, CreateOutcome::Collision))
}

proof fn lemma_free_key_after(
    n: Negotiation,
    keys: Seq<i32>,
    key: i32,
    id: i32,
    rest: Seq<(i32, CreateOutcome)>,
)
    requires
        n.explicit_key is None,
        n.attempts + keys.len() < MAX_ATTEMPTS,
    ensures
        run(n, collisions(keys) + seq![(key, CreateOutcome::Created(id))] + rest)
            == (Step::Initialise { key, id }),
    decreases keys.len(),
{
    let c = collisions(keys) + seq![(key, CreateOutcome::Created(id))] + rest;
    if keys.len() == 0 {
        assert(c[0] == (key, CreateOutcome::Created(id)));
    } else {
        assert(c[0] == (keys[0], CreateOutcome::Collision));
        let n2 = Negotiation { attempts: (n.attempts + 1) as u32, ..n };
        lemma_free_key_after(n2, keys.drop_first(), key, id, rest);
        assert(c.drop_first() =~= collisions(keys.drop_first()) + seq![
            (key, CreateOutcome::Created(id)),
        ] + rest);
    }
}

proof fn lemma_exhausted_after(n: Negotiation, keys: Seq<i32>, rest: Seq<(i32, CreateOutcome)>)
    requires
        n.explicit_key is None,
        n.attempts + keys.len() == MAX_ATTEMPTS,
        keys.len() > 0,
    ensures
        run(n, collisions(keys) + rest) == Step::Fail(collision_error()),
    decreases keys.len(),
{
    let c = collisions(keys) + rest;
    assert(c[0] == (keys[0], CreateOutcome::Collision));
    if keys.len() > 1 {
        let n2 = Negotiation { attempts: (n.attempts + 1) as u32, ..n };
        lemma_exhausted_after(n2, keys.drop_first(), rest);
        assert(c.drop_first() =~= collisions(keys.drop_first()) + rest);
    }
}

/// Without an explicit key, if every candidate before the last of `keys`
/// collides and the last is created, the protocol goes on with that last key,
/// provided there are at most `MAX_ATTEMPTS` candidates; later answers do
/// not matter.
pub proof fn law_retry_reaches_free_key(
    force: bool,
    keys: Seq<i32>,
    id: i32,
    rest: Seq<(i32, CreateOutcome)>,
)
    requires
        1 <= keys.len() <= MAX_ATTEMPTS,
    ensures
        run(
            Negotiation { explicit_key: None, force, attempts: 0 },
            collisions(keys.drop_last()) + seq![(keys.last(), CreateOutcome::Created(id))] + rest,
        ) == (Step::Initialise { key: keys.last(), id }),
{
    lemma_free_key_after(
        Negotiation { explicit_key: None, force, attempts: 0 },
        keys.drop_last(),
        keys.last(),
        id,
        rest,
    );
}

/// Without an explicit key, if `MAX_ATTEMPTS` candidates in a row collide,
/// creation fails cleanly with a key collision, whatever would follow.
pub proof fn law_retry_bounded(force: bool, keys: Seq<i32>, rest: Seq<(i32, CreateOutcome)>)
    requires
        keys.len() == MAX_ATTEMPTS,
    ensures
        run(Negotiation { explicit_key: None, force, attempts: 0 }, collisions(keys) + rest)
            == Step::Fail(collision_error()),
{
    lemma_exhausted_after(Negotiation { explicit_key: None, force, attempts: 0 }, keys, rest);
}

/// With an explicit key that collides and no forced ownership, creation fails
/// with a key collision at once: no other key is tried and nothing is mapped
/// or written.
pub proof fn law_explicit_collision_fails(key: i32, rest: Seq<(i32, CreateOutcome)>)
    ensures
        run(
            Negotiation { explicit_key: Some(key), force: false, attempts: 0 },
            seq![(key, CreateOutcome::Collision)] + rest,
        ) == Step::Fail(collision_error()),
{
    let c = seq![(key, CreateOutcome::Collision)] + rest;
    assert(c[0] == (key, CreateOutcome::Collision));
}

/// With an explicit key that collides and forced ownership, creation takes
/// over the segment under that key.
pub proof fn law_explicit_collision_takes_over(key: i32, rest: Seq<(i32, CreateOutcome)>)
    ensures
        run(
            Negotiation { explicit_key: Some(key), force: true, attempts: 0 },
            seq![(key, CreateOutcome::Collision)] + rest,
        ) == (Step::Takeover { key }),
{
    let c = seq![(key, CreateOutcome::Collision)] + rest;
    assert(c[0] == (key, CreateOutcome::Collision));
}

/// An owning handle removes its segment when it is dropped.
pub proof fn law_owner_removes(v: CortexView)
    requires
        v.is_owner,
    ensures
        teardown_of(v).detach,
        teardown_of(v).remove_segment,
{
}

/// A handle that does not own its segment only detaches when it is dropped:
/// the segment stays for the other processes.
pub proof fn law_non_owner_keeps_segment(v: CortexView)
    requires
        !v.is_owner,
    ensures
        teardown_of(v).detach,
        !teardown_of(v).remove_segment,
{
}

} // verus!
