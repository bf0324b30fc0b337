use vstd::prelude::*;
use crate::components::building::{Building, BuildingVariant};
use crate::game_state::{GameState, Tech};

verus! {

/// The research cost of `t` in a cost table: the first entry for `t`.
pub open spec fn cost_of(costs: Seq<(Tech, u32)>, t: Tech) -> Option<u32>
    decreases costs.len(),
{
    if costs.len() == 0 {
        None
    } else if costs[0].0 == t {
        Some(costs[0].1)
    } else {
        cost_of(costs.drop_first(), t)
    }
}

proof fn lemma_cost_of_skip(costs: Seq<(Tech, u32)>, t: Tech, i: int)
    requires
        0 <= i <= costs.len(),
        forall|j: int| 0 <= j < i ==> costs[j].0 != t,
    ensures
        cost_of(costs, t) == cost_of(costs.skip(i), t),
    decreases i,
{
    if i > 0 {
        assert forall|j: int| 0 <= j < i - 1 implies costs.drop_first()[j].0 != t by {
            assert(costs.drop_first()[j] == costs[j + 1]);
        }
        lemma_cost_of_skip(costs.drop_first(), t, i - 1);
        assert(costs.drop_first().skip(i - 1) =~= costs.skip(i));
    } else {
        assert(costs.skip(0) =~= costs);
    }
}

/// Looks up the research cost of `t`.
pub fn tech_cost(costs: &Vec<(Tech, u32)>, t: Tech) -> (r: Option<u32>)
    ensures
        r == cost_of(costs@, t),
{
    let mut i: usize = 0;
    while i < costs.len()
        invariant
            i <= costs@.len(),
            forall|j: int| 0 <= j < i ==> costs@[j].0 != t,
        decreases costs.len() - i,
    {
        if costs[i].0 == t {
            proof {
                lemma_cost_of_skip(costs@, t, i as int);
            }
            return Some(costs[i].1);
        }
        i = i + 1;
    }
    proof {
        lemma_cost_of_skip(costs@, t, costs@.len() as int);
        assert(costs@.skip(costs@.len() as int).len() == 0);
    }
    None
}

/// Starts researching `tech` when nothing is being researched and the colony
/// can pay its cost (0 where the cost table has no entry); returns whether
/// it started.
pub fn initiate_research(game_state: &mut GameState, tech: Tech) -> (started: bool)
    ensures
        started == (old(game_state).research_progress is None && old(game_state).credits
            >= cost_of(old(game_state).tech_costs@, tech).unwrap_or(0)),
        started ==> *final(game_state) == (GameState {
            credits: (old(game_state).credits - cost_of(old(game_state).tech_costs@, tech).unwrap_or(0)) as u64,
            research_progress: Some((tech, 0u32)),
            ..*old(game_state)
        }),
        !started ==> *final(game_state) == *old(game_state),
        old(game_state).is_consistent() ==> final(game_state).is_consistent(),
{
    let cost = match tech_cost(&game_state.tech_costs, tech) {
        Some(c) => c,
        None => 0,
    };
    if game_state.credits >= cost as u64 && game_state.research_progress.is_none() {
        game_state.credits = game_state.credits - cost as u64;
        game_state.research_progress = Some((tech, 0));
        true
    } else {
        false
    }
}

/// A building counts as staffed once its workers meet its tier's requirement.
pub open spec fn is_fully_staffed(b: Building) -> bool {
    b.assigned_workforce >= b.variant.workforce_at(b.current_tier_index as int)
}

/// Some research institute of the colony is fully staffed.
pub open spec fn has_staffed_institute(bs: Seq<Building>) -> bool {
    exists|i: int| 0 <= i < bs.len() && bs[i].variant is ResearchInstitute && #[trigger] is_fully_staffed(bs[i])
}

/// Research runs exactly when some research institute has at least as many
/// workers as its tier requires.
pub proof fn law_research_needs_a_staffed_institute(bs: Seq<Building>)
    ensures
        has_staffed_institute(bs) <==> exists|i: int|
            #![trigger bs[i]]
            0 <= i < bs.len() && bs[i].variant is ResearchInstitute && bs[i].assigned_workforce
                >= bs[i].variant.workforce_at(bs[i].current_tier_index as int),
{
    if has_staffed_institute(bs) {
        let i = choose|i: int|
            0 <= i < bs.len() && bs[i].variant is ResearchInstitute && #[trigger] is_fully_staffed(bs[i]);
        assert(bs[i].variant is ResearchInstitute);
    }
    if exists|i: int|
        #![trigger bs[i]]
        0 <= i < bs.len() && bs[i].variant is ResearchInstitute && bs[i].assigned_workforce
            >= bs[i].variant.workforce_at(bs[i].current_tier_index as int) {
        let i = choose|i: int|
            #![trigger bs[i]]
            0 <= i < bs.len() && bs[i].variant is ResearchInstitute && bs[i].assigned_workforce
                >= bs[i].variant.workforce_at(bs[i].current_tier_index as int);
        assert(is_fully_staffed(bs[i]));
    }
}

fn staffed_institute_exists(bs: &Vec<Building>) -> (r: bool)
    ensures
        r == has_staffed_institute(bs@),
{
    let mut i: usize = 0;
    while i < bs.len()
        invariant
            i <= bs@.len(),
            forall|j: int| 0 <= j < i ==> !(bs@[j].variant is ResearchInstitute && #[trigger] is_fully_staffed(bs@[j])),
        decreases bs.len() - i,
    {
        let b = &bs[i];
        if matches!(b.variant, BuildingVariant::ResearchInstitute { .. }) {
            let requirement = match b.variant.tier_basics(b.current_tier_index) {
                Some((_, w, _)) => w,
                None => 0,
            };
            if b.assigned_workforce >= requirement {
                proof {
                    assert(is_fully_staffed(bs@[i as int]));
                }
                return true;
            }
        }
        i = i + 1;
    }
    false
}

/// `s` with `t` added, once.
pub open spec fn with_tech(s: Seq<Tech>, t: Tech) -> Seq<Tech> {
    if s.contains(t) { s } else { s.push(t) }
}

/// Every tech that can be under research has a cost.
pub open spec fn research_costed(gs: GameState) -> bool {
    gs.research_progress matches Some(p) ==> cost_of(gs.tech_costs@, p.0) is Some
}

/// One research tick: while some research institute is fully staffed, the
/// current project gains a point, and once its points reach the tech's cost
/// the tech is unlocked and the project ends. Returns the tech unlocked.
pub fn research_system(game_state: &mut GameState) -> (unlocked: Option<Tech>)
    requires
        research_costed(*old(game_state)),
    ensures
        !has_staffed_institute(old(game_state).buildings@) || old(game_state).research_progress is None
            ==> unlocked is None && *final(game_state) == *old(game_state),
        has_staffed_institute(old(game_state).buildings@) && old(game_state).research_progress is Some ==> {
            let (t, p) = old(game_state).research_progress->0;
            let required = cost_of(old(game_state).tech_costs@, t)->0;
            if p + 1 >= required {
                &&& unlocked == Some(t)
                &&& final(game_state).unlocked_techs@ == with_tech(old(game_state).unlocked_techs@, t)
                &&& *final(game_state) == (GameState {
                    unlocked_techs: final(game_state).unlocked_techs,
                    research_progress: None,
                    ..*old(game_state)
                })
            } else {
                &&& unlocked is None
                &&& *final(game_state) == (GameState {
                    research_progress: Some((t, (p + 1) as u32)),
                    ..*old(game_state)
                })
            }
        },
        old(game_state).is_consistent() ==> final(game_state).is_consistent(),
{
    if !staffed_institute_exists(&game_state.buildings) {
        return None;
    }
    match game_state.research_progress {
        None => None,
        Some((tech, progress)) => {
            let required = match tech_cost(&game_state.tech_costs, tech) {
                Some(c) => c,
                None => {
                    proof {
                        assert(false);
                    }
                    return None;
                },
            };
            if progress as u64 + 1 >= required as u64 {
                if !crate::game_state::tech_unlocked(&game_state.unlocked_techs, tech) {
                    game_state.unlocked_techs.push(tech);
                }
                game_state.research_progress = None;
                Some(tech)
            } else {
                game_state.research_progress = Some((tech, progress + 1));
                None
            }
        },
    }
}

} // verus!
