//! Registry of live client connections.
//!
//! Each websocket session registers itself here on upgrade and hands over
//! the sending end of its private outbound channel, receiving a fresh
//! 128-bit id in return. Ids handed out to live connections are pairwise
//! distinct; removing a connection is idempotent, and removing an id that
//! was never registered has no effect. The id space is drawn from a random
//! 128-bit generator; should a draw ever collide with a live id, the
//! registry probes deterministically for a free one, so freshness is a
//! proved property and not merely negligible-probability.

use vstd::prelude::*;
use std::collections::HashMap;

verus! {

broadcast use vstd::std_specs::hash::group_hash_axioms;

/// State kept for one live connection: the sending end of its private,
/// unbounded outbound channel. The registry never looks inside it.
pub struct ConnectionInfo<S> {
    pub sender: S,
}

/// Tracks live client connections, keyed by their unique 128-bit id.
pub struct ConnectionRegistry<S> {
    connections: HashMap<u128, ConnectionInfo<S>>,
}

/// Relies on `uuid::Uuid::new_v4` (via `Uuid::as_u128`) for a random
/// 128-bit identifier. Nothing is assumed of the draw: freshness is
/// established by the registry itself.
#[verifier::external_body]
fn random_connection_id() -> u128 {
    uuid::Uuid::new_v4().as_u128()
}

impl<S> ConnectionRegistry<S> {
    /// The registered connections as a map from id to connection state.
    pub closed spec fn connection_map(&self) -> Map<u128, ConnectionInfo<S>> {
        self.connections@
    }

    pub fn new() -> (r: Self)
        ensures
            r.connection_map() == Map::<u128, ConnectionInfo<S>>::empty(),
    {
        ConnectionRegistry { connections: HashMap::new() }
    }

    /// How many connections are currently registered.
    pub fn connection_count(&self) -> (n: usize)
        ensures
            n == self.connection_map().len(),
    {
        self.connections.len()
    }

    /// Whether a connection is currently registered under this id.
    pub fn contains_connection(&self, id: u128) -> (r: bool)
        ensures
            r == self.connection_map().contains_key(id),
    {
        self.connections.contains_key(&id)
    }

    /// Find an id that is not in use, starting from a random draw. If the
    /// draw collides with a live id, probe upward from it: among any
    /// `len + 1` distinct candidates at least one must be free.
    fn free_id(map: &HashMap<u128, ConnectionInfo<S>>, start: u128) -> (id: u128)
        ensures
            !map@.contains_key(id),
    {
        let n = map.len();
        let n_wide: u128 = n as u128;
        let base: u128 = if start > u128::MAX - n_wide {
            0
        } else {
            start
        };
        let mut i: u128 = 0;
        while i <= n_wide
            invariant
                n_wide == map@.len(),
                n_wide <= usize::MAX,
                base + n_wide <= u128::MAX,
                i <= n_wide + 1,
                forall|c: u128| base <= c < base + i ==> map@.contains_key(c),
            decreases n_wide + 1 - i,
        {
            let candidate: u128 = base + i;
            if !map.contains_key(&candidate) {
                return candidate;
            }
            i = i + 1;
        }
        proof {
            let cand = Seq::new((n_wide + 1) as nat, |j: int| (base + j) as u128);
            assert(cand.no_duplicates()) by {
                assert forall|p: int, q: int|
                    0 <= p < cand.len() && 0 <= q < cand.len() && p != q implies cand[p]
                    != cand[q] by {
                    assert(base + p <= u128::MAX && base + q <= u128::MAX);
                }
            }
            cand.unique_seq_to_set();
            assert(cand.to_set().subset_of(map@.dom())) by {
                assert forall|x: u128| cand.to_set().contains(x) implies map@.dom().contains(
                    x,
                ) by {
                    let j = choose|j: int| 0 <= j < cand.len() && cand[j] == x;
                    assert(base <= x < base + i);
                    assert(map@.contains_key(x));
                }
            }
            assert(map@.dom().finite());
            vstd::set_lib::lemma_len_subset(cand.to_set(), map@.dom());
            assert(false);
        }
        0
    }

    /// Register a new connection: store its outbound sender under a fresh
    /// id and return that id. The id was not registered before the call,
    /// so ids of live connections are pairwise distinct.
    pub fn register_connection(&mut self, sender: S) -> (id: u128)
        ensures
            !old(self).connection_map().contains_key(id),
            final(self).connection_map() == old(self).connection_map().insert(
                id,
                ConnectionInfo { sender },
            ),
    {
        let draw = random_connection_id();
        let id = Self::free_id(&self.connections, draw);
        self.connections.insert(id, ConnectionInfo { sender });
        id
    }

    /// Remove a connection by id. Idempotent: removing an id that is not
    /// present, including removing the same id twice, changes nothing.
    pub fn remove_connection(&mut self, id: u128)
        ensures
            final(self).connection_map() == old(self).connection_map().remove(id),
            !old(self).connection_map().contains_key(id) ==> final(self).connection_map()
                == old(self).connection_map(),
    {
        self.connections.remove(&id);
        proof {
            if !old(self).connection_map().contains_key(id) {
                assert(self.connection_map() =~= old(self).connection_map());
            }
        }
    }
}

/// How one registration changes the registry: the fresh id joins the map
/// and nothing leaves it. This is the shape `register_connection`
/// guarantees.
pub open spec fn spec_register_step<S>(
    pre: Map<u128, ConnectionInfo<S>>,
    post: Map<u128, ConnectionInfo<S>>,
    id: u128,
) -> bool {
    &&& !pre.contains_key(id)
    &&& post.dom() == pre.dom().insert(id)
}

/// What `register_connection` ensures is one registration step: its
/// contract implies the relation the distinctness law is stated over.
pub proof fn lemma_register_connection_step<S>(
    pre: Map<u128, ConnectionInfo<S>>,
    post: Map<u128, ConnectionInfo<S>>,
    id: u128,
    info: ConnectionInfo<S>,
)
    requires
        !pre.contains_key(id),
        post == pre.insert(id, info),
    ensures
        spec_register_step(pre, post, id),
{
    assert(post.dom() =~= pre.dom().insert(id));
}

/// Along a chain of registrations, an id issued earlier is still present
/// at every later state.
proof fn lemma_issued_id_stays<S>(
    states: Seq<Map<u128, ConnectionInfo<S>>>,
    ids: Seq<u128>,
    i: int,
    k: int,
)
    requires
        states.len() == ids.len() + 1,
        forall|j: int|
            0 <= j < ids.len() ==> #[trigger] spec_register_step(
                states[j],
                states[j + 1],
                ids[j],
            ),
        0 <= i < k <= ids.len(),
    ensures
        states[k].contains_key(ids[i]),
    decreases k - i,
{
    if k == i + 1 {
        assert(spec_register_step(states[i], states[i + 1], ids[i]));
        assert(states[i + 1].dom().contains(ids[i]));
    } else {
        lemma_issued_id_stays(states, ids, i, k - 1);
        let j = k - 1;
        assert(spec_register_step(states[j], states[j + 1], ids[j]));
        assert(states[k].dom().contains(ids[i]));
    }
}

/// Registering any number of connections produces pairwise-distinct ids:
/// along any chain of registrations, no id is ever issued twice.
pub proof fn lemma_register_ids_distinct<S>(
    states: Seq<Map<u128, ConnectionInfo<S>>>,
    ids: Seq<u128>,
)
    requires
        states.len() == ids.len() + 1,
        forall|j: int|
            0 <= j < ids.len() ==> #[trigger] spec_register_step(
                states[j],
                states[j + 1],
                ids[j],
            ),
    ensures
        ids.no_duplicates(),
{
    assert forall|i: int, j: int|
        0 <= i < ids.len() && 0 <= j < ids.len() && i != j implies ids[i] != ids[j] by {
        let (lo, hi) = if i < j {
            (i, j)
        } else {
            (j, i)
        };
        lemma_issued_id_stays(states, ids, lo, hi);
        let j = hi;
        assert(spec_register_step(states[j], states[j + 1], ids[j]));
    }
}

/// Removing an id twice is a no-op both times beyond the first: the second
/// removal leaves the map exactly as the first left it.
pub proof fn lemma_remove_idempotent<S>(m: Map<u128, ConnectionInfo<S>>, id: u128)
    ensures
        m.remove(id).remove(id) == m.remove(id),
        !m.contains_key(id) ==> m.remove(id) == m,
{
    assert(m.remove(id).remove(id) =~= m.remove(id));
    if !m.contains_key(id) {
        assert(m.remove(id) =~= m);
    }
}

} // verus!
