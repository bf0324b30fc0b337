use vstd::prelude::*;
use crate::game_state::{tech_unlocked, GameState, Tech};

verus! {

/// The techs the research panel offers, in order.
pub open spec fn offered_techs() -> Seq<Tech> {
    seq![Tech::BasicConstructionProtocols, Tech::EfficientExtraction]
}

/// The offered techs that are not unlocked yet, in order.
pub fn available_research(game_state: &GameState) -> (r: Vec<Tech>)
    ensures
        r@ == offered_techs().filter(|t: Tech| !game_state.unlocked_techs@.contains(t)),
{
    let all_techs = vec![Tech::BasicConstructionProtocols, Tech::EfficientExtraction];
    let mut r: Vec<Tech> = Vec::new();
    let mut i: usize = 0;
    while i < all_techs.len()
        invariant
            i <= all_techs@.len(),
            all_techs@ == offered_techs(),
            r@ == offered_techs().take(i as int).filter(|t: Tech| !game_state.unlocked_techs@.contains(t)),
        decreases all_techs.len() - i,
    {
        proof {
            reveal_with_fuel(Seq::<Tech>::filter, 1);
            assert(offered_techs().take(i + 1).drop_last() =~= offered_techs().take(i as int));
        }
        if !tech_unlocked(&game_state.unlocked_techs, all_techs[i]) {
            r.push(all_techs[i]);
        }
        i = i + 1;
    }
    proof {
        assert(offered_techs().take(2) =~= offered_techs());
    }
    r
}

} // verus!
