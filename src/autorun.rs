use vstd::prelude::*;

use crate::state::UserChatPreferences;

verus! {

/// Autorun is allowed while the depth stays within the user's ceiling and the
/// user enabled unattended runs of some kind.
pub open spec fn should_autorun(prefs: UserChatPreferences, depth: int) -> bool {
    &&& depth <= prefs.depth
    &&& (prefs.autorun_all || prefs.autorun_readonly)
}

/// Decides whether the relay loop may start the next step on its own.
pub fn determine_autorun_status(user_preferences: UserChatPreferences, current_chat_depth: u16) -> (r: bool)
    ensures
        r == should_autorun(user_preferences, current_chat_depth as int),
{
    if current_chat_depth > user_preferences.depth {
        false
    } else if user_preferences.autorun_all {
        true
    } else {
        user_preferences.autorun_readonly
    }
}

/// Past the ceiling no preferences allow autorun.
pub proof fn lemma_no_autorun_past_ceiling(prefs: UserChatPreferences, depth: int)
    requires
        depth > prefs.depth,
    ensures
        !should_autorun(prefs, depth),
{
}

} // verus!
