use vstd::prelude::*;

verus! {

/// A connection and the user logged in on it, if any.
#[derive(Debug, Clone, Copy, PartialEq, Eq, Structural)]
pub struct PeerEntry {
    pub peer_id: u128,
    pub user_id: Option<u128>,
}

/// The connections of logged-in users, in the order given.
pub open spec fn authenticated_peers(peers: Seq<PeerEntry>) -> Seq<u128> {
    peers.filter(|p: PeerEntry| p.user_id is Some).map_values(|p: PeerEntry| p.peer_id)
}

/// The connections of the given users, in the order given.
pub open spec fn peers_of_users(peers: Seq<PeerEntry>, users: Seq<u128>) -> Seq<u128> {
    peers.filter(|p: PeerEntry| p.user_id matches Some(u) && users.contains(u)).map_values(|p: PeerEntry| p.peer_id)
}

/// Whether a connection of the user exists.
pub open spec fn user_online(peers: Seq<PeerEntry>, user: u128) -> bool {
    exists|i: int| 0 <= i < peers.len() && #[trigger] peers[i].user_id == Some(user)
}

/// Fan-out of server messages to connected users.
pub struct BroadcastService;

fn user_listed(users: &Vec<u128>, u: u128) -> (r: bool)
    ensures
        r == users@.contains(u),
{
    let mut i: usize = 0;
    while i < users.len()
        invariant
            i <= users.len(),
            forall|k: int| 0 <= k < i ==> users@[k] != u,
        decreases users.len() - i,
    {
        if users[i] == u {
            return true;
        }
        i = i + 1;
    }
    false
}

impl BroadcastService {
    /// The connections that a message to all logged-in users goes to.
    pub fn broadcast_to_all_recipients(peers: &Vec<PeerEntry>) -> (r: Vec<u128>)
        ensures
            r@ == authenticated_peers(peers@),
    {
        let mut out: Vec<u128> = Vec::new();
        let mut i: usize = 0;
        while i < peers.len()
            invariant
                i <= peers.len(),
                out@ == authenticated_peers(peers@.take(i as int)),
            decreases peers.len() - i,
        {
            proof {
                assert(peers@.take(i + 1) =~= peers@.take(i as int).push(peers@[i as int]));
                assert(peers@.take(i + 1).drop_last() =~= peers@.take(i as int));
                reveal_with_fuel(Seq::filter, 1);
            }
            if peers[i].user_id.is_some() {
                out.push(peers[i].peer_id);
            }
            proof {
                assert(out@ =~= authenticated_peers(peers@.take(i + 1)));
            }
            i = i + 1;
        }
        assert(peers@.take(peers.len() as int) =~= peers@);
        out
    }

    /// The connections that a message to the given users goes to.
    pub fn broadcast_to_users_recipients(peers: &Vec<PeerEntry>, user_ids: &Vec<u128>) -> (r: Vec<u128>)
        ensures
            r@ == peers_of_users(peers@, user_ids@),
    {
        let mut out: Vec<u128> = Vec::new();
        let mut i: usize = 0;
        while i < peers.len()
            invariant
                i <= peers.len(),
                out@ == peers_of_users(peers@.take(i as int), user_ids@),
            decreases peers.len() - i,
        {
            proof {
                assert(peers@.take(i + 1) =~= peers@.take(i as int).push(peers@[i as int]));
                assert(peers@.take(i + 1).drop_last() =~= peers@.take(i as int));
                reveal_with_fuel(Seq::filter, 1);
            }
            match peers[i].user_id {
                Some(u) => {
                    if user_listed(user_ids, u) {
                        out.push(peers[i].peer_id);
                    }
                },
                None => {},
            }
            proof {
                assert(out@ =~= peers_of_users(peers@.take(i + 1), user_ids@));
            }
            i = i + 1;
        }
        assert(peers@.take(peers.len() as int) =~= peers@);
        out
    }

    /// The connection that a message to one user goes to: the first of theirs.
    pub fn send_to_user_recipient(peers: &Vec<PeerEntry>, user_id: u128) -> (r: Option<u128>)
        ensures
            match r {
                None => !user_online(peers@, user_id),
                Some(p) => exists|i: int|
                    0 <= i < peers@.len() && #[trigger] peers@[i].user_id == Some(user_id) && peers@[i].peer_id == p
                        && forall|j: int| 0 <= j < i ==> #[trigger] peers@[j].user_id != Some(user_id),
            },
    {
        let mut i: usize = 0;
        while i < peers.len()
            invariant
                i <= peers.len(),
                forall|j: int| 0 <= j < i ==> #[trigger] peers@[j].user_id != Some(user_id),
            decreases peers.len() - i,
        {
            if peers[i].user_id == Some(user_id) {
                return Some(peers[i].peer_id);
            }
            i = i + 1;
        }
        None
    }

    /// The users with at least one connection, each once.
    pub fn get_online_users(peers: &Vec<PeerEntry>) -> (r: Vec<u128>)
        ensures
            r@.no_duplicates(),
            forall|u: u128| r@.contains(u) <==> user_online(peers@, u),
    {
        let mut out: Vec<u128> = Vec::new();
        let mut i: usize = 0;
        while i < peers.len()
            invariant
                i <= peers.len(),
                out@.no_duplicates(),
                forall|u: u128| out@.contains(u) <==> user_online(peers@.take(i as int), u),
            decreases peers.len() - i,
        {
            let ghost old_out = out@;
            match peers[i].user_id {
                Some(u) => {
                    if !user_listed(&out, u) {
                        out.push(u);
                        assert(out@.last() == u);
                    }
                },
                None => {},
            }
            proof {
                let t = peers@.take(i + 1);
                let pre = peers@.take(i as int);
                assert forall|k: int| 0 <= k < i implies #[trigger] t[k] == pre[k] by {}
                assert(t[i as int] == peers@[i as int]);
                assert forall|v: u128| out@.contains(v) <==> user_online(t, v) by {
                    if user_online(pre, v) {
                        let k = choose|k: int| 0 <= k < pre.len() && #[trigger] pre[k].user_id == Some(v);
                        assert(t[k].user_id == Some(v));
                    }
                    if user_online(t, v) {
                        let k = choose|k: int| 0 <= k < t.len() && #[trigger] t[k].user_id == Some(v);
                        if k < i {
                            assert(pre[k].user_id == Some(v));
                        }
                    }
                    if out@.contains(v) {
                        let k = choose|k: int| 0 <= k < out@.len() && out@[k] == v;
                        if k < old_out.len() {
                            assert(old_out[k] == v);
                            assert(old_out.contains(v));
                        } else {
                            assert(peers@[i as int].user_id == Some(v));
                        }
                    }
                    if old_out.contains(v) {
                        let k = choose|k: int| 0 <= k < old_out.len() && old_out[k] == v;
                        assert(out@[k] == v);
                    }
                    if peers@[i as int].user_id == Some(v) && !old_out.contains(v) {
                        assert(out@[out@.len() - 1] == v);
                    }
                }
            }
            i = i + 1;
        }
        assert(peers@.take(peers.len() as int) =~= peers@);
        out
    }

    /// Whether a user has at least one connection.
    pub fn is_user_online(peers: &Vec<PeerEntry>, user_id: u128) -> (r: bool)
        ensures
            r == user_online(peers@, user_id),
    {
        let mut i: usize = 0;
        while i < peers.len()
            invariant
                i <= peers.len(),
                forall|j: int| 0 <= j < i ==> #[trigger] peers@[j].user_id != Some(user_id),
            decreases peers.len() - i,
        {
            if peers[i].user_id == Some(user_id) {
                return true;
            }
            i = i + 1;
        }
        false
    }
}

/// A user is online exactly when a message addressed to them alone finds at least
/// one connection.
pub proof fn lemma_online_consistency(peers: Seq<PeerEntry>, user: u128)
    ensures
        user_online(peers, user) <==> peers_of_users(peers, seq![user]).len() > 0,
    decreases peers.len(),
{
    reveal_with_fuel(Seq::filter, 1);
    if peers.len() > 0 {
        lemma_online_consistency(peers.drop_last(), user);
        let last = peers.last();
        if user_online(peers, user) && !user_online(peers.drop_last(), user) {
            let k = choose|k: int| 0 <= k < peers.len() && #[trigger] peers[k].user_id == Some(user);
            if k < peers.len() - 1 {
                assert(peers.drop_last()[k].user_id == Some(user));
            }
            assert(seq![user][0] == user);
            assert(seq![user].contains(user));
        }
        if user_online(peers.drop_last(), user) {
            let k = choose|k: int| 0 <= k < peers.len() - 1 && #[trigger] peers.drop_last()[k].user_id == Some(user);
            assert(peers[k].user_id == Some(user));
        }
        if last.user_id == Some(user) {
            assert(peers[peers.len() - 1].user_id == Some(user));
        }
        if let Some(u) = last.user_id {
            if seq![user].contains(u) {
                assert(seq![user][0] == u);
                assert(peers[peers.len() - 1].user_id == Some(user));
            }
        }
    }
}

} // verus!
