//! The votes of one round: how many each candidate move has, and who has
//! voted.

use vstd::prelude::*;
use crate::keyed::{
    distinct_keys, has_key, index_of_key, keyed_map, lemma_keyed_index, lemma_keyed_push,
    lemma_keyed_update,
};
use crate::notation::{
    lemma_lex_le_antisymmetric, lemma_lex_le_reflexive, lemma_lex_le_total,
    lemma_lex_le_transitive, lex_le, notation_le,
};

verus! {

/// Whether, with the votes `counts`, the move `a` comes before the move `b`:
/// it has more votes, or as many and a writing that is not later in the
/// dictionary.
pub open spec fn outvotes(counts: Map<Seq<char>, nat>, a: Seq<char>, b: Seq<char>) -> bool {
    counts[a] > counts[b] || (counts[a] == counts[b] && lex_le(a, b))
}

/// Whether `mv` wins the round with the votes `counts`: it is a candidate,
/// and it comes before every candidate. So the winner is the move with the
/// most votes and, among several with the most votes, the one whose writing
/// is first in the dictionary.
pub open spec fn is_winner(counts: Map<Seq<char>, nat>, mv: Seq<char>) -> bool {
    &&& counts.contains_key(mv)
    &&& forall|other: Seq<char>| #[trigger] counts.contains_key(other) ==> outvotes(counts, mv, other)
}

/// The votes that `mv` has: none where it is no candidate.
pub open spec fn votes_of(counts: Map<Seq<char>, nat>, mv: Seq<char>) -> nat {
    if counts.contains_key(mv) {
        counts[mv]
    } else {
        0
    }
}

/// The votes after one more vote for `mv`.
pub open spec fn with_vote(counts: Map<Seq<char>, nat>, mv: Seq<char>) -> Map<Seq<char>, nat> {
    counts.insert(mv, votes_of(counts, mv) + 1)
}

struct TallyEntry {
    mv: String,
    votes: u64,
}

spec fn entry_move() -> spec_fn(TallyEntry) -> Seq<char> {
    |entry: TallyEntry| entry.mv@
}

spec fn entry_votes() -> spec_fn(TallyEntry) -> nat {
    |entry: TallyEntry| entry.votes as nat
}

spec fn counts_of(entries: Seq<TallyEntry>) -> Map<Seq<char>, nat> {
    keyed_map(entries, entry_move(), entry_votes())
}

spec fn names_of(voters: Seq<String>) -> Seq<Seq<char>> {
    voters.map_values(|name: String| name@)
}

/// The tally of one round.
pub struct VoteTally {
    entries: Vec<TallyEntry>,
    voters: Vec<String>,
}

impl VoteTally {
    /// No move is listed twice, every listed move has a vote, no move has
    /// more votes than there are voters, and no voter is listed twice.
    pub closed spec fn wf(&self) -> bool {
        &&& distinct_keys(self.entries@, entry_move())
        &&& forall|i: int|
            0 <= i < self.entries.len() ==> 1 <= (#[trigger] self.entries[i]).votes
                <= self.voters.len()
        &&& names_of(self.voters@).no_duplicates()
    }

    /// The votes of each candidate move. A move without a vote is no
    /// candidate.
    pub closed spec fn counts(&self) -> Map<Seq<char>, nat> {
        counts_of(self.entries@)
    }

    /// The players who have voted.
    pub closed spec fn voters(&self) -> Set<Seq<char>> {
        names_of(self.voters@).to_set()
    }

    /// The voters are finitely many, and every candidate has at least one
    /// vote and at most as many as there are voters.
    pub proof fn lemma_votes_bounded(&self, mv: Seq<char>)
        requires
            self.wf(),
            self.counts().contains_key(mv),
        ensures
            self.voters().finite(),
            1 <= self.counts()[mv] <= self.voters().len(),
    {
        let names = names_of(self.voters@);
        names.unique_seq_to_set();
        vstd::seq_lib::seq_to_set_is_finite(names);
        let i = index_of_key(self.entries@, entry_move(), mv);
        lemma_keyed_index(self.entries@, entry_move(), entry_votes(), i);
    }

    /// Every candidate has a vote, and the voters are finitely many.
    pub proof fn lemma_counts_positive(&self)
        requires
            self.wf(),
        ensures
            self.voters().finite(),
            forall|mv: Seq<char>| #[trigger]
                self.counts().contains_key(mv) ==> self.counts()[mv] >= 1,
    {
        vstd::seq_lib::seq_to_set_is_finite(names_of(self.voters@));
        assert forall|mv: Seq<char>| #[trigger]
            self.counts().contains_key(mv) implies self.counts()[mv] >= 1 by {
            self.lemma_votes_bounded(mv);
        }
    }

    /// The tally of a round in which nobody has voted yet.
    pub fn new() -> (tally: VoteTally)
        ensures
            tally.wf(),
            tally.counts() == Map::<Seq<char>, nat>::empty(),
            tally.voters() == Set::<Seq<char>>::empty(),
    {
        let tally = VoteTally { entries: Vec::new(), voters: Vec::new() };
        assert(tally.counts() =~= Map::<Seq<char>, nat>::empty());
        assert(names_of(tally.voters@) =~= Seq::<Seq<char>>::empty());
        assert(tally.voters() =~= Set::<Seq<char>>::empty());
        tally
    }

    /// Whether nobody has voted for any move.
    pub fn is_empty(&self) -> (empty: bool)
        requires
            self.wf(),
        ensures
            empty == (self.counts() == Map::<Seq<char>, nat>::empty()),
    {
        let empty = self.entries.len() == 0;
        proof {
            if empty {
                assert(self.counts() =~= Map::<Seq<char>, nat>::empty());
            } else {
                lemma_keyed_index(self.entries@, entry_move(), entry_votes(), 0);
            }
        }
        empty
    }

    /// How many players have voted.
    pub fn voter_count(&self) -> (count: usize)
        requires
            self.wf(),
        ensures
            self.voters().finite(),
            count == self.voters().len(),
    {
        proof {
            let names = names_of(self.voters@);
            names.unique_seq_to_set();
            vstd::seq_lib::seq_to_set_is_finite(names);
        }
        self.voters.len()
    }

    /// Whether `player` has voted.
    pub fn has_voted(&self, player: &str) -> (voted: bool)
        requires
            self.wf(),
        ensures
            voted == self.voters().contains(player@),
    {
        let name = player.to_owned();
        let ghost names = names_of(self.voters@);
        let mut i: usize = 0;
        while i < self.voters.len()
            invariant
                i <= self.voters.len(),
                name@ == player@,
                names == names_of(self.voters@),
                forall|j: int| 0 <= j < i ==> names[j] != player@,
            decreases self.voters.len() - i,
        {
            if self.voters[i] == name {
                assert(names[i as int] == player@);
                return true;
            }
            i = i + 1;
        }
        false
    }

    /// The votes that `mv` has: none where it is no candidate.
    pub fn votes_for(&self, mv: &str) -> (votes: u64)
        requires
            self.wf(),
        ensures
            votes == votes_of(self.counts(), mv@),
    {
        let key = mv.to_owned();
        let mut i: usize = 0;
        while i < self.entries.len()
            invariant
                i <= self.entries.len(),
                key@ == mv@,
                self.wf(),
                forall|j: int| 0 <= j < i ==> (#[trigger] self.entries[j]).mv@ != mv@,
            decreases self.entries.len() - i,
        {
            if self.entries[i].mv == key {
                proof {
                    lemma_keyed_index(self.entries@, entry_move(), entry_votes(), i as int);
                }
                return self.entries[i].votes;
            }
            i = i + 1;
        }
        0
    }

    /// Records the vote of `player` for `mv`. The player must not have voted
    /// yet in this round.
    pub fn record(&mut self, player: String, mv: String)
        requires
            old(self).wf(),
            !old(self).voters().contains(player@),
        ensures
            final(self).wf(),
            final(self).voters() == old(self).voters().insert(player@),
            final(self).counts() == with_vote(old(self).counts(), mv@),
    {
        proof {
            let names = names_of(self.voters@);
            assert(names_of(self.voters@.push(player)) =~= names.push(player@));
            names.lemma_push_to_set_commute(player@);
            assert forall|a: int, b: int|
                0 <= a < names.push(player@).len() && 0 <= b < names.push(player@).len() && a
                    != b implies names.push(player@)[a] != names.push(player@)[b] by {
                if a == names.len() {
                    assert(names.contains(names[b]));
                } else if b == names.len() {
                    assert(names.contains(names[a]));
                }
            }
        }
        self.voters.push(player);
        let mut i: usize = 0;
        while i < self.entries.len()
            invariant
                i <= self.entries.len(),
                self.entries == old(self).entries,
                self.voters@ == old(self).voters@.push(player),
                names_of(self.voters@).no_duplicates(),
                names_of(self.voters@).to_set() == old(self).voters().insert(player@),
                old(self).wf(),
                forall|j: int| 0 <= j < i ==> (#[trigger] self.entries[j]).mv@ != mv@,
            decreases self.entries.len() - i,
        {
            if self.entries[i].mv == mv {
                let votes = self.entries[i].votes;
                assert(votes + 1 <= self.voters.len());
                self.entries.set(i, TallyEntry { mv, votes: votes + 1 });
                proof {
                    lemma_keyed_index(old(self).entries@, entry_move(), entry_votes(), i as int);
                    lemma_keyed_update(
                        old(self).entries@,
                        self.entries@,
                        entry_move(),
                        entry_votes(),
                        i as int,
                    );
                }
                return ;
            }
            i = i + 1;
        }
        let entry = TallyEntry { mv, votes: 1 };
        proof {
            lemma_keyed_push(self.entries@, entry, entry_move(), entry_votes());
        }
        self.entries.push(entry);
    }

    /// Forgets every vote and every voter: a new round begins.
    pub fn clear(&mut self)
        ensures
            final(self).wf(),
            final(self).counts() == Map::<Seq<char>, nat>::empty(),
            final(self).voters() == Set::<Seq<char>>::empty(),
    {
        self.entries.clear();
        self.voters.clear();
        assert(self.counts() =~= Map::<Seq<char>, nat>::empty());
        assert(names_of(self.voters@) =~= Seq::<Seq<char>>::empty());
        assert(self.voters() =~= Set::<Seq<char>>::empty());
    }

    /// The move that wins the round, or `None` where nobody has voted.
    pub fn winner(&self) -> (winner: Option<String>)
        requires
            self.wf(),
        ensures
            match winner {
                Some(mv) => is_winner(self.counts(), mv@),
                None => self.counts() == Map::<Seq<char>, nat>::empty(),
            },
    {
        if self.entries.len() == 0 {
            assert(self.counts() =~= Map::<Seq<char>, nat>::empty());
            return None;
        }
        let ghost counts = self.counts();
        let mut best: usize = 0;
        let mut i: usize = 1;
        proof {
            lemma_keyed_index(self.entries@, entry_move(), entry_votes(), 0);
            lemma_lex_le_reflexive(self.entries[0].mv@);
        }
        while i < self.entries.len()
            invariant
                1 <= i <= self.entries.len(),
                best < i,
                self.wf(),
                counts == self.counts(),
                forall|j: int|
                    0 <= j < i ==> outvotes(
                        counts,
                        self.entries[best as int].mv@,
                        (#[trigger] self.entries[j]).mv@,
                    ),
            decreases self.entries.len() - i,
        {
            let ghost lead = self.entries[best as int].mv@;
            let ghost next = self.entries[i as int].mv@;
            proof {
                lemma_keyed_index(self.entries@, entry_move(), entry_votes(), best as int);
                lemma_keyed_index(self.entries@, entry_move(), entry_votes(), i as int);
                lemma_lex_le_total(lead, next);
                lemma_lex_le_reflexive(next);
            }
            let takes_over = self.entries[i].votes > self.entries[best].votes || (
            self.entries[i].votes == self.entries[best].votes && !notation_le(
                self.entries[best].mv.as_str(),
                self.entries[i].mv.as_str(),
            ));
            if takes_over {
                proof {
                    assert forall|j: int| 0 <= j < i + 1 implies outvotes(
                        counts,
                        next,
                        (#[trigger] self.entries[j]).mv@,
                    ) by {
                        if j < i {
                            let other = self.entries[j].mv@;
                            lemma_keyed_index(self.entries@, entry_move(), entry_votes(), j);
                            assert(outvotes(counts, lead, other));
                            if counts[next] == counts[other] {
                                lemma_lex_le_transitive(next, lead, other);
                            }
                        }
                    }
                }
                best = i;
            }
            i = i + 1;
        }
        proof {
            let top = self.entries[best as int].mv@;
            lemma_keyed_index(self.entries@, entry_move(), entry_votes(), best as int);
            assert forall|other: Seq<char>| #[trigger]
                counts.contains_key(other) implies outvotes(counts, top, other) by {
                let j = index_of_key(self.entries@, entry_move(), other);
                assert(self.entries[j].mv@ == other);
            }
        }
        Some(self.entries[best].mv.clone())
    }
}

/// A round has one winner at most: the rule leaves no tie.
pub proof fn lemma_winner_unique(counts: Map<Seq<char>, nat>, a: Seq<char>, b: Seq<char>)
    requires
        is_winner(counts, a),
        is_winner(counts, b),
    ensures
        a == b,
{
    assert(outvotes(counts, a, b));
    assert(outvotes(counts, b, a));
    lemma_lex_le_antisymmetric(a, b);
}

/// No candidate has more votes than the winner, and one with as many votes
/// is the winner or comes later in the dictionary.
pub proof fn lemma_winner_has_most_votes(counts: Map<Seq<char>, nat>, winner: Seq<char>, other: Seq<char>)
    requires
        is_winner(counts, winner),
        counts.contains_key(other),
    ensures
        counts[other] <= counts[winner],
        counts[other] == counts[winner] && other != winner ==> lex_le(winner, other) && !lex_le(
            other,
            winner,
        ),
{
    if counts[other] == counts[winner] && other != winner && lex_le(other, winner) {
        lemma_lex_le_antisymmetric(winner, other);
    }
}

} // verus!
