use vstd::prelude::*;
use crate::game_state::{add_notification, logged, NotificationEvent};

verus! {

/// Which alerts are raised.
#[derive(Debug, Clone)]
pub struct AlertState {
    pub power: bool,
    pub food: bool,
    pub unrest: bool,
}

impl Default for AlertState {
    fn default() -> (r: Self)
        ensures
            !r.power && !r.food && !r.unrest,
    {
        AlertState { power: false, food: false, unrest: false }
    }
}

/// The colony's condition as the alerts see it: a power deficit, less than
/// ten units of nutrient paste, and happiness below thirty.
pub struct AlertReadings {
    pub power_deficit: bool,
    pub food_short: bool,
    pub unrest: bool,
}

/// `new` is `old`, with a notice of `m` logged at `ts` when there is one.
pub open spec fn logged_if(
    old: Seq<NotificationEvent>,
    new: Seq<NotificationEvent>,
    m: Option<Seq<char>>,
    ts: u64,
) -> bool {
    match m {
        None => new == old,
        Some(msg) => logged(old, new, msg, ts),
    }
}

/// The notice an alert gives when it changes: `raise` when it goes up,
/// `clear` when it goes down, none when it stays.
pub open spec fn alert_notice(raised: bool, condition: bool, raise: Seq<char>, clear: Seq<char>) -> Option<Seq<char>> {
    if condition && !raised {
        Some(raise)
    } else if !condition && raised {
        Some(clear)
    } else {
        None
    }
}

/// An alert gives its raising notice exactly when its condition holds and it
/// was down, its clearing notice exactly when the condition is gone and it
/// was up, and no notice otherwise.
pub proof fn law_alert_notice(raised: bool, condition: bool, raise: Seq<char>, clear: Seq<char>)
    ensures
        (condition && !raised) ==> alert_notice(raised, condition, raise, clear) == Some(raise),
        (!condition && raised) ==> alert_notice(raised, condition, raise, clear) == Some(clear),
        (condition == raised) ==> alert_notice(raised, condition, raise, clear) is None,
{
}

fn notify_change(
    raised: &mut bool,
    condition: bool,
    notifications: &mut std::collections::VecDeque<NotificationEvent>,
    raise: &str,
    clear: &str,
    now_ms: u64,
)
    ensures
        *final(raised) == condition,
        logged_if(old(notifications)@, final(notifications)@, alert_notice(*old(raised), condition, raise@, clear@), now_ms),
{
    if condition && !*raised {
        add_notification(notifications, String::from_str(raise), now_ms);
        *raised = true;
    } else if !condition && *raised {
        add_notification(notifications, String::from_str(clear), now_ms);
        *raised = false;
    }
}

/// Raises and clears the colony's alerts. Each alert follows its condition,
/// and logs a notice, at time `now_ms`, exactly when it goes up or down;
/// power comes first, then food, then unrest.
pub fn alert_system(
    alert: &mut AlertState,
    notifications: &mut std::collections::VecDeque<NotificationEvent>,
    readings: &AlertReadings,
    now_ms: u64,
)
    ensures
        final(alert).power == readings.power_deficit,
        final(alert).food == readings.food_short,
        final(alert).unrest == readings.unrest,
        exists|m1: Seq<NotificationEvent>, m2: Seq<NotificationEvent>|
            logged_if(
                old(notifications)@,
                m1,
                alert_notice(
                    old(alert).power,
                    readings.power_deficit,
                    "ALERT: Power deficit detected."@,
                    "Power levels stabilized."@,
                ),
                now_ms,
            ) && logged_if(
                m1,
                m2,
                alert_notice(old(alert).food, readings.food_short, "ALERT: Food shortage."@, "Food supply restored."@),
                now_ms,
            ) && logged_if(
                m2,
                final(notifications)@,
                alert_notice(
                    old(alert).unrest,
                    readings.unrest,
                    "ALERT: Civic unrest rising."@,
                    "Civic order restored."@,
                ),
                now_ms,
            ),
{
    notify_change(
        &mut alert.power,
        readings.power_deficit,
        notifications,
        "ALERT: Power deficit detected.",
        "Power levels stabilized.",
        now_ms,
    );
    let ghost m1 = notifications@;
    notify_change(
        &mut alert.food,
        readings.food_short,
        notifications,
        "ALERT: Food shortage.",
        "Food supply restored.",
        now_ms,
    );
    let ghost m2 = notifications@;
    notify_change(
        &mut alert.unrest,
        readings.unrest,
        notifications,
        "ALERT: Civic unrest rising.",
        "Civic order restored.",
        now_ms,
    );
}

} // verus!
