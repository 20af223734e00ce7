use vstd::prelude::*;
use vstd::arithmetic::div_mod::{lemma_add_mod_noop, lemma_mod_add_multiples_vanish, lemma_small_mod};
use zbus::Connection;
use crate::error::{Error, Result};
use crate::text::{
    has_prefix, lemma_lex_irreflexive, lemma_lex_total, lemma_lex_transitive, lex_lt, text_eq, text_lt, texts,
};

verus! {

/// A connection to the message bus, shared by every handle made from it.
#[verifier::external_type_specification]
#[verifier::external_body]
pub struct ExConnection(Connection);

/// The bus-name prefix of every media player service.
pub open spec fn player_prefix() -> Seq<char> {
    "org.mpris.MediaPlayer2."@
}

/// Whether `t` names a media player service.
pub open spec fn is_player_name(t: Seq<char>) -> bool {
    player_prefix().len() <= t.len() && t.subrange(0, player_prefix().len() as int) == player_prefix()
}

/// Every name comes strictly before the next, so no name appears twice.
pub open spec fn strictly_sorted(s: Seq<Seq<char>>) -> bool {
    forall|i: int, j: int| 0 <= i < j < s.len() ==> lex_lt(s[i], s[j])
}

/// The position selected after `i` among `n` players.
pub open spec fn next_index(i: int, n: int) -> int {
    (i + 1) % n
}

/// The position selected before `i` among `n` players.
pub open spec fn previous_index(i: int, n: int) -> int {
    (i + n - 1) % n
}

/// The position reached from `i` by `k` steps forward among `n` players.
pub open spec fn advance(i: int, n: int, k: nat) -> int
    decreases k,
{
    if k == 0 {
        i
    } else {
        next_index(advance(i, n, (k - 1) as nat), n)
    }
}

/// A strictly sorted sequence holds each name at one position only.
pub proof fn lemma_sorted_positions_unique(s: Seq<Seq<char>>, j: int, k: int)
    requires
        strictly_sorted(s),
        0 <= j < s.len(),
        0 <= k < s.len(),
        s[j] == s[k],
    ensures
        j == k,
{
    lemma_lex_irreflexive(s[j]);
}

/// A handle on one player service: the shared connection and the service's
/// bus name. Every command built from it is addressed to that service.
#[derive(Debug)]
pub struct Player<C = Connection> {
    pub connection: C,
    pub name: String,
}

/// The registry of discovered players, in sorted order, and which one is
/// selected. The connection is shared with the handle of the selected player.
#[derive(Debug)]
pub struct Root<C = Connection> {
    connection: C,
    players: Vec<String>,
    selection: Option<(usize, Player<C>)>,
}

/// Where `x` belongs in the strictly sorted `v`: after every name that comes
/// before it.
fn insertion_point(v: &Vec<String>, x: &str) -> (p: usize)
    ensures
        p <= v.len(),
        forall|k: int| 0 <= k < p ==> lex_lt(v@[k]@, x@),
        p < v.len() ==> !lex_lt(v@[p as int]@, x@),
{
    let mut p: usize = 0;
    while p < v.len()
        invariant
            p <= v.len(),
            forall|k: int| 0 <= k < p ==> lex_lt(v@[k]@, x@),
        decreases v.len() - p,
    {
        if !text_lt(v[p].as_str(), x) {
            return p;
        }
        p = p + 1;
    }
    p
}

/// Adds `x` to the strictly sorted `v` at its place, unless it is there already.
fn insert_sorted(v: &mut Vec<String>, x: String)
    requires
        strictly_sorted(texts(old(v)@)),
    ensures
        strictly_sorted(texts(final(v)@)),
        forall|t: Seq<char>| #[trigger] texts(final(v)@).contains(t) <==> (texts(old(v)@).contains(t) || t == x@),
{
    let p = insertion_point(v, x.as_str());
    if p < v.len() && text_eq(v[p].as_str(), x.as_str()) {
        assert(texts(v@)[p as int] == x@);
        return;
    }
    let ghost before = v@;
    let ghost xs = x@;
    v.insert(p, x);
    proof {
        let old_t = texts(before);
        let new_t = texts(v@);
        assert(new_t =~= old_t.insert(p as int, xs));
        if p < before.len() {
            lemma_lex_total(old_t[p as int], xs);
        }
        assert forall|i: int, j: int| 0 <= i < j < new_t.len() implies lex_lt(new_t[i], new_t[j]) by {
            if j < p {
            } else if j == p {
            } else if i < p {
            } else if i == p {
                if j - 1 > p {
                    lemma_lex_transitive(xs, old_t[p as int], old_t[j - 1]);
                }
            } else {
            }
        }
        assert forall|t: Seq<char>| #[trigger] new_t.contains(t) <==> (old_t.contains(t) || t == xs) by {
            if new_t.contains(t) {
                let w = choose|w: int| 0 <= w < new_t.len() && new_t[w] == t;
                if w < p {
                    assert(old_t[w] == t);
                } else if w > p {
                    assert(old_t[w - 1] == t);
                }
            }
            if old_t.contains(t) {
                let w = choose|w: int| 0 <= w < old_t.len() && old_t[w] == t;
                if w < p {
                    assert(new_t[w] == t);
                } else {
                    assert(new_t[w + 1] == t);
                }
            }
            if t == xs {
                assert(new_t[p as int] == t);
            }
        }
    }
}

impl<C> Root<C> {
    #[verifier::type_invariant]
    spec fn consistent(self) -> bool {
        &&& strictly_sorted(texts(self.players@))
        &&& (self.selection is Some <==> self.players.len() > 0)
        &&& (self.selection matches Some((i, p)) ==> i < self.players.len() && p.name@
            == self.players@[i as int]@)
    }

    /// The discovered service names, in order.
    pub closed spec fn players(self) -> Seq<Seq<char>> {
        texts(self.players@)
    }

    /// The position of the selected player, if one is selected.
    pub closed spec fn selected(self) -> Option<int> {
        match self.selection {
            Some((i, _)) => Some(i as int),
            None => None,
        }
    }

    /// A player is selected exactly when there is one, and the selection is
    /// a position among them.
    pub open spec fn selection_in_range(self) -> bool {
        match self.selected() {
            Some(i) => 0 <= i < self.players().len(),
            None => self.players().len() == 0,
        }
    }
}

impl<C: Clone> Root<C> {
    /// Builds the registry from the service names found on the bus: keeps
    /// those of media players, in sorted order, each once, and selects the
    /// first when there is one.
    pub fn new(connection: C, names: Vec<String>) -> (r: Root<C>)
        ensures
            strictly_sorted(r.players()),
            forall|t: Seq<char>| #[trigger] r.players().contains(t) <==> (is_player_name(t)
                && texts(names@).contains(t)),
            r.selected() == (if r.players().len() > 0 { Some(0int) } else { None::<int> }),
            r.selection_in_range(),
    {
        let mut players: Vec<String> = Vec::new();
        let mut i: usize = 0;
        while i < names.len()
            invariant
                i <= names.len(),
                strictly_sorted(texts(players@)),
                forall|t: Seq<char>| #[trigger] texts(players@).contains(t) <==> (is_player_name(t)
                    && texts(names@).take(i as int).contains(t)),
            decreases names.len() - i,
        {
            let ghost before = players@;
            assert(texts(names@).take(i + 1) =~= texts(names@).take(i as int).push(names@[i as int]@));
            if has_prefix(names[i].as_str(), "org.mpris.MediaPlayer2.") {
                insert_sorted(&mut players, names[i].clone());
            }
            assert forall|t: Seq<char>| #[trigger] texts(players@).contains(t) <==> (is_player_name(t)
                && texts(names@).take(i + 1).contains(t)) by {
                let prev = texts(names@).take(i as int);
                let next = texts(names@).take(i + 1);
                if prev.contains(t) {
                    let w = choose|w: int| 0 <= w < prev.len() && prev[w] == t;
                    assert(next[w] == t);
                }
                if next.contains(t) {
                    let w = choose|w: int| 0 <= w < next.len() && next[w] == t;
                    if w < i {
                        assert(prev[w] == t);
                    }
                }
                if t == names@[i as int]@ {
                    assert(next[i as int] == t);
                }
            }
            i = i + 1;
        }
        assert(texts(names@).take(names.len() as int) =~= texts(names@));
        let selection = if players.len() > 0 {
            let first = Player { connection: connection.clone(), name: players[0].clone() };
            Some((0usize, first))
        } else {
            None
        };
        Root { connection, players, selection }
    }

    /// The discovered service names, in order.
    pub fn get_players(&self) -> (r: &Vec<String>)
        ensures
            texts(r@) == self.players(),
    {
        &self.players
    }

    /// The handle on the selected player.
    pub fn get_player(&self) -> (r: Result<&Player<C>>)
        ensures
            r is Ok <==> self.selected() is Some,
            r is Ok ==> 0 <= self.selected().unwrap() < self.players().len() && r.unwrap().name@
                == self.players()[self.selected().unwrap()],
            r is Err ==> r matches Err(Error::NoPlayerFound),
    {
        proof { use_type_invariant(self); }
        match &self.selection {
            Some((_, player)) => Ok(player),
            None => Err(Error::NoPlayerFound),
        }
    }

    /// Selects the player named exactly `name`. A name that was not
    /// discovered leaves the selection as it was.
    pub fn set_player(&mut self, name: &str) -> (r: Result<()>)
        ensures
            final(self).players() == old(self).players(),
            final(self).selection_in_range(),
            old(self).players().contains(name@) ==> r is Ok && final(self).selected() is Some
                && 0 <= final(self).selected().unwrap() < old(self).players().len()
                && old(self).players()[final(self).selected().unwrap()] == name@,
            !old(self).players().contains(name@) ==> (r matches Err(Error::PlayerNotFound(s))
                && s@ == name@) && final(self).selected() == old(self).selected(),
    {
        proof { use_type_invariant(&*self); }
        let mut i: usize = 0;
        while i < self.players.len()
            invariant
                self.players@ == old(self).players@,
                self.selection == old(self).selection,
                i <= self.players.len(),
                forall|k: int| 0 <= k < i ==> self.players@[k]@ != name@,
            decreases self.players.len() - i,
        {
            proof { use_type_invariant(&*self); }
            if text_eq(self.players[i].as_str(), name) {
                let player = Player { connection: self.connection.clone(), name: name.to_owned() };
                assert(texts(old(self).players@)[i as int] == name@);
                self.selection = Some((i, player));
                return Ok(());
            }
            i = i + 1;
        }
        assert(!texts(self.players@).contains(name@)) by {
            if texts(self.players@).contains(name@) {
                let w = choose|w: int| 0 <= w < self.players.len() && texts(self.players@)[w] == name@;
                assert(self.players@[w]@ == name@);
            }
        }
        Err(Error::PlayerNotFound(name.to_owned()))
    }

    /// Selects the service at position `k`, by its name.
    fn select_position(&mut self, k: usize) -> (r: Result<()>)
        requires
            k < old(self).players().len(),
        ensures
            r is Ok,
            final(self).players() == old(self).players(),
            final(self).selected() == Some(k as int),
    {
        proof { use_type_invariant(&*self); }
        let name = self.players[k].clone();
        assert(self.players().contains(name@)) by {
            assert(self.players()[k as int] == name@);
        }
        let r = self.set_player(name.as_str());
        proof {
            use_type_invariant(&*self);
            lemma_sorted_positions_unique(self.players(), final(self).selected().unwrap(), k as int);
        }
        proof { use_type_invariant(&*self); }
        r
    }

    /// Moves the selection one player forward, from the last back to the
    /// first. Without a selection nothing changes.
    pub fn next_player(&mut self) -> (r: Result<()>)
        ensures
            r is Ok,
            final(self).players() == old(self).players(),
            final(self).selection_in_range(),
            final(self).selected() == match old(self).selected() {
                Some(i) => Some(next_index(i, old(self).players().len() as int)),
                None => None::<int>,
            },
    {
        proof { use_type_invariant(&*self); }
        let current: Option<usize> = match &self.selection {
            Some((i, _)) => Some(*i),
            None => None,
        };
        match current {
            Some(i) => {
                let k = (i + 1) % self.players.len();
                self.select_position(k)
            },
            None => Ok(()),
        }
    }

    /// Moves the selection one player back, from the first round to the
    /// last. Without a selection nothing changes.
    pub fn previous_player(&mut self) -> (r: Result<()>)
        ensures
            r is Ok,
            final(self).players() == old(self).players(),
            final(self).selection_in_range(),
            final(self).selected() == match old(self).selected() {
                Some(i) => Some(previous_index(i, old(self).players().len() as int)),
                None => None::<int>,
            },
    {
        proof { use_type_invariant(&*self); }
        let current: Option<usize> = match &self.selection {
            Some((i, _)) => Some(*i),
            None => None,
        };
        match current {
            Some(i) => {
                let n = self.players.len();
                let k = if i == 0 { n - 1 } else { i - 1 };
                proof {
                    if i == 0 {
                        lemma_small_mod((n - 1) as nat, n as nat);
                    } else {
                        lemma_mod_add_multiples_vanish((i - 1) as int, n as int);
                        lemma_small_mod((i - 1) as nat, n as nat);
                    }
                }
                self.select_position(k)
            },
            None => Ok(()),
        }
    }
}

/// Going `k` steps forward from `i` among `n` players lands on `(i + k) mod n`.
pub proof fn lemma_advance(i: int, n: int, k: nat)
    requires
        0 <= i < n,
    ensures
        advance(i, n, k) == (i + k) % n,
    decreases k,
{
    if k > 0 {
        let x = i + k - 1;
        lemma_advance(i, n, (k - 1) as nat);
        assert(advance(i, n, k) == ((x % n) + 1) % n);
        lemma_add_mod_noop(x, 1, n);
        if n == 1 {
            assert(((x % n) + 1) % n == 0);
            assert((x + 1) % n == 0);
        } else {
            lemma_small_mod(1, n as nat);
        }
    } else {
        lemma_small_mod(i as nat, n as nat);
    }
}

/// Moving forward from any selected position `i` among `n` players lands on
/// `(i + 1) mod n`, and `n` such moves come back to `i`.
pub proof fn lemma_next_cycles(i: int, n: int)
    requires
        0 <= i < n,
    ensures
        next_index(i, n) == (i + 1) % n,
        0 <= next_index(i, n) < n,
        advance(i, n, n as nat) == i,
{
    lemma_advance(i, n, n as nat);
    lemma_mod_add_multiples_vanish(i, n);
    lemma_small_mod(i as nat, n as nat);
}

/// Moving back after moving forward returns to the position one started from,
/// and so does moving forward after moving back.
pub proof fn lemma_previous_undoes_next(i: int, n: int)
    requires
        0 <= i < n,
    ensures
        previous_index(next_index(i, n), n) == i,
        next_index(previous_index(i, n), n) == i,
{
    if i + 1 < n {
        lemma_small_mod((i + 1) as nat, n as nat);
        lemma_mod_add_multiples_vanish(i, n);
        lemma_small_mod(i as nat, n as nat);
    } else {
        vstd::arithmetic::div_mod::lemma_mod_self_0(n);
        lemma_small_mod((n - 1) as nat, n as nat);
    }
    if i == 0 {
        lemma_small_mod((n - 1) as nat, n as nat);
        vstd::arithmetic::div_mod::lemma_mod_self_0(n);
    } else {
        lemma_mod_add_multiples_vanish(i - 1, n);
        lemma_small_mod((i - 1) as nat, n as nat);
        lemma_small_mod(i as nat, n as nat);
    }
}

} // verus!
