use vstd::prelude::*;
use crate::game_state::text::concat3;
use crate::game_state::tiers::{
    get_administrative_spire_tiers, get_legacy_structure_tiers, is_administrative_spire_table,
    is_legacy_structure_table,
};
use crate::game_state::{
    add_notification, logged, AdministrativeSpire, DevelopmentPhase, GameState, LegacyStructure,
};

verus! {

/// Constructs the Administrative Spire at its first tier, which sets the
/// development phase, if it is not built yet and the colony can pay.
pub fn construct_administrative_spire(game_state: &mut GameState)
    ensures
        old(game_state).is_consistent() ==> final(game_state).is_consistent(),
        old(game_state).administrative_spire is Some ==> {
            &&& *final(game_state) == (GameState {
                notifications: final(game_state).notifications,
                ..*old(game_state)
            })
            &&& logged(
                old(game_state).notifications@,
                final(game_state).notifications@,
                "Administrative Spire already constructed."@,
                0,
            )
        },
        old(game_state).administrative_spire is None && old(game_state).credits < 1000 ==> {
            &&& *final(game_state) == (GameState {
                notifications: final(game_state).notifications,
                ..*old(game_state)
            })
            &&& logged(
                old(game_state).notifications@,
                final(game_state).notifications@,
                "Not enough credits to construct "@ + "Spire Core"@ + "."@,
                0,
            )
        },
        old(game_state).administrative_spire is None && old(game_state).credits >= 1000 ==> {
            &&& final(game_state).administrative_spire matches Some(s)
                && s.current_tier_index == 0 && is_administrative_spire_table(s.available_tiers@)
            &&& *final(game_state) == (GameState {
                administrative_spire: final(game_state).administrative_spire,
                credits: (old(game_state).credits - 1000) as u64,
                current_development_phase: DevelopmentPhase::DP1,
                notifications: final(game_state).notifications,
                ..*old(game_state)
            })
            &&& logged(
                old(game_state).notifications@,
                final(game_state).notifications@,
                "Spire Core"@ + " constructed."@,
                0,
            )
        },
{
    if game_state.administrative_spire.is_some() {
        add_notification(
            &mut game_state.notifications,
            String::from_str("Administrative Spire already constructed."),
            0,
        );
        return;
    }
    let tiers = get_administrative_spire_tiers();
    if tiers.len() == 0 {
        add_notification(
            &mut game_state.notifications,
            String::from_str("No Administrative Spire tiers defined."),
            0,
        );
        return;
    }
    let cost = tiers[0].construction_credits_cost;
    let phase = tiers[0].unlocks_phase;
    if game_state.credits < cost as u64 {
        let msg = concat3("Not enough credits to construct ", tiers[0].name.as_str(), ".");
        add_notification(&mut game_state.notifications, msg, 0);
        return;
    }
    let msg = concat3("", tiers[0].name.as_str(), " constructed.");
    proof {
        reveal_strlit("");
    }
    game_state.credits = game_state.credits - cost as u64;
    game_state.administrative_spire = Some(AdministrativeSpire { current_tier_index: 0, available_tiers: tiers });
    game_state.current_development_phase = phase;
    add_notification(&mut game_state.notifications, msg, 0);
}

/// The Spire, when built, has at least one tier.
pub open spec fn spire_well_defined(gs: GameState) -> bool {
    gs.administrative_spire matches Some(s) ==> s.available_tiers@.len() >= 1
}

/// Upgrades the Administrative Spire one tier, paying the current tier's
/// upgrade cost (not the next tier's, which is what `spire_panel` shows);
/// the development phase becomes the new tier's.
pub fn upgrade_administrative_spire(game_state: &mut GameState)
    requires
        spire_well_defined(*old(game_state)),
    ensures
        old(game_state).is_consistent() ==> final(game_state).is_consistent(),
        match old(game_state).administrative_spire {
            None => {
                &&& *final(game_state) == (GameState {
                    notifications: final(game_state).notifications,
                    ..*old(game_state)
                })
                &&& logged(
                    old(game_state).notifications@,
                    final(game_state).notifications@,
                    "Administrative Spire not constructed yet."@,
                    0,
                )
            },
            Some(s) => {
                let k = s.current_tier_index as int;
                let tiers = s.available_tiers@;
                if !(k < tiers.len() - 1) {
                    &&& *final(game_state) == (GameState {
                        notifications: final(game_state).notifications,
                        ..*old(game_state)
                    })
                    &&& logged(
                        old(game_state).notifications@,
                        final(game_state).notifications@,
                        "Administrative Spire is already at maximum tier."@,
                        0,
                    )
                } else if (old(game_state).credits as int) < tiers[k].upgrade_credits_cost as int {
                    &&& *final(game_state) == (GameState {
                        notifications: final(game_state).notifications,
                        ..*old(game_state)
                    })
                    &&& logged(
                        old(game_state).notifications@,
                        final(game_state).notifications@,
                        "Not enough credits to upgrade Spire to "@ + tiers[k + 1].name@ + "."@,
                        0,
                    )
                } else {
                    &&& final(game_state).administrative_spire == Some(AdministrativeSpire {
                        current_tier_index: (k + 1) as usize,
                        ..s
                    })
                    &&& *final(game_state) == (GameState {
                        administrative_spire: final(game_state).administrative_spire,
                        credits: (old(game_state).credits - tiers[k].upgrade_credits_cost) as u64,
                        current_development_phase: tiers[k + 1].unlocks_phase,
                        notifications: final(game_state).notifications,
                        ..*old(game_state)
                    })
                    &&& logged(
                        old(game_state).notifications@,
                        final(game_state).notifications@,
                        "Administrative Spire upgraded to "@ + tiers[k + 1].name@ + "."@,
                        0,
                    )
                }
            },
        },
{
    match &mut game_state.administrative_spire {
        None => {
            add_notification(
                &mut game_state.notifications,
                String::from_str("Administrative Spire not constructed yet."),
                0,
            );
        },
        Some(spire) => {
            let k = spire.current_tier_index;
            if k < spire.available_tiers.len() - 1 {
                let upgrade_cost = spire.available_tiers[k].upgrade_credits_cost;
                let next_phase = spire.available_tiers[k + 1].unlocks_phase;
                if game_state.credits < upgrade_cost as u64 {
                    let msg = concat3(
                        "Not enough credits to upgrade Spire to ",
                        spire.available_tiers[k + 1].name.as_str(),
                        ".",
                    );
                    add_notification(&mut game_state.notifications, msg, 0);
                    return;
                }
                let msg = concat3(
                    "Administrative Spire upgraded to ",
                    spire.available_tiers[k + 1].name.as_str(),
                    ".",
                );
                game_state.credits = game_state.credits - upgrade_cost as u64;
                spire.current_tier_index = k + 1;
                game_state.current_development_phase = next_phase;
                add_notification(&mut game_state.notifications, msg, 0);
            } else {
                add_notification(
                    &mut game_state.notifications,
                    String::from_str("Administrative Spire is already at maximum tier."),
                    0,
                );
            }
        },
    }
}

} // verus!

verus! {

/// Constructs the Legacy Structure at its first tier, once the colony is in
/// Development Phase 3 and can pay. Returns the happiness the structure
/// adds at once (0 where it was not built).
pub fn construct_legacy_structure(game_state: &mut GameState) -> (happiness_gain: i64)
    ensures
        old(game_state).is_consistent() ==> final(game_state).is_consistent(),
        old(game_state).legacy_structure is Some ==> {
            &&& happiness_gain == 0
            &&& *final(game_state) == (GameState {
                notifications: final(game_state).notifications,
                ..*old(game_state)
            })
            &&& logged(
                old(game_state).notifications@,
                final(game_state).notifications@,
                "Legacy Structure already constructed."@,
                0,
            )
        },
        old(game_state).legacy_structure is None && old(game_state).current_development_phase
            != DevelopmentPhase::DP3 ==> {
            &&& happiness_gain == 0
            &&& *final(game_state) == (GameState {
                notifications: final(game_state).notifications,
                ..*old(game_state)
            })
            &&& logged(
                old(game_state).notifications@,
                final(game_state).notifications@,
                "Legacy Structure requires Development Phase 3."@,
                0,
            )
        },
        old(game_state).legacy_structure is None && old(game_state).current_development_phase
            == DevelopmentPhase::DP3 && old(game_state).credits < 2000 ==> {
            &&& happiness_gain == 0
            &&& *final(game_state) == (GameState {
                notifications: final(game_state).notifications,
                ..*old(game_state)
            })
            &&& logged(
                old(game_state).notifications@,
                final(game_state).notifications@,
                "Not enough credits to construct "@ + "Ancient Monolith"@ + "."@,
                0,
            )
        },
        old(game_state).legacy_structure is None && old(game_state).current_development_phase
            == DevelopmentPhase::DP3 && old(game_state).credits >= 2000 ==> {
            &&& happiness_gain == 5
            &&& final(game_state).legacy_structure matches Some(s)
                && s.current_tier_index == 0 && is_legacy_structure_table(s.available_tiers@)
            &&& *final(game_state) == (GameState {
                legacy_structure: final(game_state).legacy_structure,
                credits: (old(game_state).credits - 2000) as u64,
                notifications: final(game_state).notifications,
                ..*old(game_state)
            })
            &&& logged(
                old(game_state).notifications@,
                final(game_state).notifications@,
                "Ancient Monolith"@ + " constructed."@,
                0,
            )
        },
{
    if game_state.legacy_structure.is_some() {
        add_notification(
            &mut game_state.notifications,
            String::from_str("Legacy Structure already constructed."),
            0,
        );
        return 0;
    }
    if game_state.current_development_phase != DevelopmentPhase::DP3 {
        add_notification(
            &mut game_state.notifications,
            String::from_str("Legacy Structure requires Development Phase 3."),
            0,
        );
        return 0;
    }
    let tiers = get_legacy_structure_tiers();
    if tiers.len() == 0 {
        add_notification(
            &mut game_state.notifications,
            String::from_str("No Legacy Structure tiers defined."),
            0,
        );
        return 0;
    }
    let cost = tiers[0].construction_credits_cost;
    let bonus = tiers[0].happiness_bonus;
    if game_state.credits < cost as u64 {
        let msg = concat3("Not enough credits to construct ", tiers[0].name.as_str(), ".");
        add_notification(&mut game_state.notifications, msg, 0);
        return 0;
    }
    let msg = concat3("", tiers[0].name.as_str(), " constructed.");
    proof {
        reveal_strlit("");
    }
    game_state.credits = game_state.credits - cost as u64;
    game_state.legacy_structure = Some(LegacyStructure { current_tier_index: 0, available_tiers: tiers });
    add_notification(&mut game_state.notifications, msg, 0);
    bonus as i64
}

/// The Legacy Structure, when built, has at least one tier.
pub open spec fn legacy_well_defined(gs: GameState) -> bool {
    gs.legacy_structure matches Some(s) ==> s.available_tiers@.len() >= 1
}

/// Upgrades the Legacy Structure one tier, paying the next tier's
/// construction cost. Returns the change of happiness: the new tier's bonus
/// replaces the old one's (0 where nothing was upgraded).
pub fn upgrade_legacy_structure(game_state: &mut GameState) -> (happiness_change: i64)
    requires
        legacy_well_defined(*old(game_state)),
    ensures
        old(game_state).is_consistent() ==> final(game_state).is_consistent(),
        match old(game_state).legacy_structure {
            None => {
                &&& happiness_change == 0
                &&& *final(game_state) == (GameState {
                    notifications: final(game_state).notifications,
                    ..*old(game_state)
                })
                &&& logged(
                    old(game_state).notifications@,
                    final(game_state).notifications@,
                    "Legacy Structure not constructed yet."@,
                    0,
                )
            },
            Some(s) => {
                let k = s.current_tier_index as int;
                let tiers = s.available_tiers@;
                if !(k < tiers.len() - 1) {
                    &&& happiness_change == 0
                    &&& *final(game_state) == (GameState {
                        notifications: final(game_state).notifications,
                        ..*old(game_state)
                    })
                    &&& logged(
                        old(game_state).notifications@,
                        final(game_state).notifications@,
                        "Legacy Structure is already at maximum tier."@,
                        0,
                    )
                } else if (old(game_state).credits as int) < tiers[k + 1].construction_credits_cost as int {
                    &&& happiness_change == 0
                    &&& *final(game_state) == (GameState {
                        notifications: final(game_state).notifications,
                        ..*old(game_state)
                    })
                    &&& logged(
                        old(game_state).notifications@,
                        final(game_state).notifications@,
                        "Not enough credits to upgrade Legacy Structure to "@ + tiers[k + 1].name@ + "."@,
                        0,
                    )
                } else {
                    &&& happiness_change == tiers[k + 1].happiness_bonus - tiers[k].happiness_bonus
                    &&& final(game_state).legacy_structure == Some(LegacyStructure {
                        current_tier_index: (k + 1) as usize,
                        ..s
                    })
                    &&& *final(game_state) == (GameState {
                        legacy_structure: final(game_state).legacy_structure,
                        credits: (old(game_state).credits - tiers[k + 1].construction_credits_cost) as u64,
                        notifications: final(game_state).notifications,
                        ..*old(game_state)
                    })
                    &&& logged(
                        old(game_state).notifications@,
                        final(game_state).notifications@,
                        "Legacy Structure upgraded to "@ + tiers[k + 1].name@ + "."@,
                        0,
                    )
                }
            },
        },
{
    match &mut game_state.legacy_structure {
        None => {
            add_notification(
                &mut game_state.notifications,
                String::from_str("Legacy Structure not constructed yet."),
                0,
            );
            0
        },
        Some(structure) => {
            let k = structure.current_tier_index;
            if k < structure.available_tiers.len() - 1 {
                let upgrade_cost = structure.available_tiers[k + 1].construction_credits_cost;
                if game_state.credits < upgrade_cost as u64 {
                    let msg = concat3(
                        "Not enough credits to upgrade Legacy Structure to ",
                        structure.available_tiers[k + 1].name.as_str(),
                        ".",
                    );
                    add_notification(&mut game_state.notifications, msg, 0);
                    return 0;
                }
                let previous_bonus = structure.available_tiers[k].happiness_bonus;
                let next_bonus = structure.available_tiers[k + 1].happiness_bonus;
                let msg = concat3(
                    "Legacy Structure upgraded to ",
                    structure.available_tiers[k + 1].name.as_str(),
                    ".",
                );
                game_state.credits = game_state.credits - upgrade_cost as u64;
                structure.current_tier_index = k + 1;
                add_notification(&mut game_state.notifications, msg, 0);
                next_bonus as i64 - previous_bonus as i64
            } else {
                add_notification(
                    &mut game_state.notifications,
                    String::from_str("Legacy Structure is already at maximum tier."),
                    0,
                );
                0
            }
        },
    }
}

} // verus!
