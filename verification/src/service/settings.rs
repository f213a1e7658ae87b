use vstd::prelude::*;

use crate::events::AppEvent;
use crate::settings::{FormField, FormId};
use crate::store::StateAction;

verus! {

/// What the settings service does on an application event: a selected form starts loading
/// (the second part of the result names the form whose data the caller is to load and hand
/// to `loading_outcome`); a cancelled form closes; a submitted field sets its value.
pub fn handle_app_event(event: AppEvent) -> (r: (Vec<StateAction>, Option<FormId>))
    ensures
        match event {
            AppEvent::SettingsFormSelected(id) => r.0@.len() == 1 && (r.0@[0] matches StateAction::SettingsFormLoadingStart {
                id: x,
            } && x == id) && r.1 == Some(id),
            AppEvent::SettingsFormLoadingCancelRequested => r.0@.len() == 1 && r.0@[0] is SettingsFormClose
                && r.1 is None,
            AppEvent::SettingsFormItemSubmitted { key, value } => r.0@.len() == 1 && (r.0@[0] matches StateAction::SettingsFormValueSet {
                key: k,
                value: v,
            } && k == key && v == value) && r.1 is None,
            _ => r.0@.len() == 0 && r.1 is None,
        },
{
    let mut actions: Vec<StateAction> = Vec::new();
    let mut load: Option<FormId> = None;
    match event {
        AppEvent::SettingsFormSelected(id) => {
            actions.push(StateAction::SettingsFormLoadingStart { id });
            load = Some(id);
        },
        AppEvent::SettingsFormLoadingCancelRequested => {
            actions.push(StateAction::SettingsFormClose);
        },
        AppEvent::SettingsFormItemSubmitted { key, value } => {
            actions.push(StateAction::SettingsFormValueSet { key, value });
        },
        _ => {},
    }
    (actions, load)
}

/// The error of a form that has no loader.
pub open spec fn no_loader_message(id: FormId) -> Seq<char> {
    "Loader not implemented for FormId: "@ + id.name_spec()
}

/// How the loading of a form ends. Only the LoRa form has a loader: `lora` is the outcome of
/// turning the radio's LoRa configuration into form fields, `None` where the radio has not sent
/// that configuration.
pub fn loading_outcome(id: FormId, lora: Option<Result<Vec<FormField>, String>>) -> (r: StateAction)
    ensures
        id == FormId::RadioLora ==> match lora {
            None => r matches StateAction::SettingsFormLoadingFail { id: x, error } && x == id
                && error@ == "Lora config not loaded"@,
            Some(Ok(data)) => r matches StateAction::SettingsFormLoadingDone { id: x, data: d } && x
                == id && d@ == data@,
            Some(Err(e)) => r matches StateAction::SettingsFormLoadingFail { id: x, error } && x
                == id && error@ == e@,
        },
        id != FormId::RadioLora ==> (r matches StateAction::SettingsFormLoadingFail { id: x, error }
            && x == id && error@ == no_loader_message(id)),
{
    match id {
        FormId::RadioLora => match lora {
            None => StateAction::SettingsFormLoadingFail {
                id,
                error: "Lora config not loaded".to_owned(),
            },
            Some(Ok(data)) => StateAction::SettingsFormLoadingDone { id, data },
            Some(Err(e)) => StateAction::SettingsFormLoadingFail { id, error: e },
        },
        _ => StateAction::SettingsFormLoadingFail {
            id,
            error: "Loader not implemented for FormId: ".to_owned().concat(id.name()),
        },
    }
}

} // verus!
