use vstd::prelude::*;
use vstd::arithmetic::power2::{lemma_pow2_strictly_increases, pow2};

use crate::service::connection::{
    reconnection_backoff_spec, time_left_spec, RECONNECTION_BACKOFF_MAX_MILLIS,
};
use crate::settings::SettingsItem;
use crate::ui::list::Selection;
use crate::ui::messenger::sendable;
use crate::ui::settings::{first_form_from, last_stop_upto, menu_down, menu_up};

verus! {

/// Moving through a list that has items keeps the selection on an item: from no selection or
/// from an item, the next and the previous position are items of the list.
pub proof fn law_selection_stays_in_list(sel: Selection)
    requires
        sel.len > 0,
        sel.selected matches Some(i) ==> i < sel.len,
    ensures
        sel.next_spec() matches Some(i) && i < sel.len,
        sel.previous_spec() matches Some(i) && i < sel.len,
{
}

proof fn lemma_first_form_from(items: Seq<SettingsItem>, j: int)
    requires
        items.len() > 0,
        items.last() is Form,
        0 <= j,
    ensures
        0 <= first_form_from(items, j) < items.len(),
        items[first_form_from(items, j)] is Form,
        j <= items.len() - 1 ==> j <= first_form_from(items, j),
    decreases items.len() - j,
{
    if j < items.len() - 1 && !(items[j] is Form) {
        lemma_first_form_from(items, j + 1);
    }
}

proof fn lemma_last_stop_upto(items: Seq<SettingsItem>, j: int)
    requires
        0 <= j < items.len(),
    ensures
        0 <= last_stop_upto(items, j) <= j,
        last_stop_upto(items, j) == 0 || items[last_stop_upto(items, j)] is Form,
    decreases j,
{
    if j > 0 && !(items[j] is Form) {
        lemma_last_stop_upto(items, j - 1);
    }
}

/// Moving through the settings menu never stops on a group heading, but for the first
/// position when moving up: moving down lands on a form, moving up on a form or the top.
pub proof fn law_menu_skips_headings(items: Seq<SettingsItem>, selected: Option<usize>)
    requires
        items.len() > 0,
        items.last() is Form,
        selected matches Some(i) ==> i < items.len(),
    ensures
        0 <= menu_down(items, selected) < items.len(),
        items[menu_down(items, selected)] is Form,
        0 <= menu_up(items, selected) < items.len(),
        menu_up(items, selected) == 0 || items[menu_up(items, selected)] is Form,
{
    match selected {
        None => {
            lemma_first_form_from(items, 0);
            lemma_last_stop_upto(items, items.len() - 1);
        },
        Some(i) => {
            lemma_first_form_from(items, if i + 1 < items.len() { i + 1 } else { items.len() - 1 });
            lemma_last_stop_upto(items, if i > 0 { i - 1 } else { 0 });
        },
    }
}

/// The wait before reconnecting never exceeds the longest wait, and grows (or stays) with
/// every further attempt.
pub proof fn law_backoff_bounded_and_growing(a: nat, b: nat)
    requires
        a <= b,
    ensures
        reconnection_backoff_spec(a) <= RECONNECTION_BACKOFF_MAX_MILLIS,
        reconnection_backoff_spec(a) <= reconnection_backoff_spec(b),
{
    if a < b {
        lemma_pow2_strictly_increases(a, b);
    }
}

/// Once the wait has run out, no time is left of it; before, what is left is the rest of
/// the wait.
pub proof fn law_time_left(since: u64, backoff: u64, now: u64)
    requires
        since + backoff <= u64::MAX,
    ensures
        now >= since + backoff ==> time_left_spec(since, backoff, now) == 0,
        now < since + backoff ==> time_left_spec(since, backoff, now) == since + backoff - now,
{
}

/// Enter alone sends the text being typed exactly when it is at most 200 bytes long: every text
/// of 1 to 200 bytes is sent, and a longer one never is.
pub proof fn law_send_up_to_200_bytes(input: &str)
    ensures
        input.len() <= 200 ==> sendable(input),
        input.len() > 200 ==> !sendable(input),
{
}

} // verus!
