//! The team selector: one entry of the directory, chosen uniformly at
//! random. Selection is destructive, as the directory is discarded after
//! one search anyway.

use rand::Rng;
use vstd::prelude::*;

use crate::team::TeamRecord;

verus! {

/// Relies on `rand::thread_rng` and `rand::Rng::gen_range`: a uniformly
/// distributed value in the half-open range `0..n`, which panics only when
/// the range is empty. Nothing more can be promised of a random value.
#[verifier::external_body]
pub(crate) fn random_index(n: usize) -> (i: usize)
    requires
        n > 0,
    ensures
        i < n,
{
    rand::thread_rng().gen_range(0..n)
}

/// Removes and returns the entry at `index`.
pub fn select_team(teams: &mut Vec<TeamRecord>, index: usize) -> (team: TeamRecord)
    requires
        index < old(teams).len(),
    ensures
        team == old(teams)@[index as int],
        final(teams)@ == old(teams)@.remove(index as int),
{
    teams.remove(index)
}

/// Removes and returns one entry, chosen uniformly at random. The result is
/// always an element of the input collection, and the remaining collection
/// is the input with exactly that element taken out.
pub fn select_random_team(teams: &mut Vec<TeamRecord>) -> (team: TeamRecord)
    requires
        old(teams).len() > 0,
    ensures
        old(teams)@.contains(team),
        exists|i: int|
            0 <= i < old(teams)@.len() && team == old(teams)@[i] && final(teams)@ == old(
                teams,
            )@.remove(i),
{
    let index = random_index(teams.len());
    let team = select_team(teams, index);
    proof {
        assert(old(teams)@[index as int] == team);
    }
    team
}

} // verus!
