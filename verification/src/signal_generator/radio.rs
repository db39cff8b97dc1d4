//! Which of the signal generator's radio modules is active.
use vstd::prelude::*;

use super::model::Model;

verus! {

/// The model that a missing main model stands for.
pub open spec fn or_default(model: Option<Model>) -> Model {
    match model {
        Some(m) => m,
        None => Model::Rfe6Gen,
    }
}

/// The active radio's model: the expansion module's when there is one and the
/// device has sent a configuration of it, else the main module's (or the
/// default model when the device named none).
pub open spec fn spec_active_radio_model(
    main: Option<Model>,
    expansion: Option<Model>,
    expansion_config_received: bool,
) -> Model {
    match expansion {
        Some(e) => if expansion_config_received {
            e
        } else {
            or_default(main)
        },
        None => or_default(main),
    }
}

/// The inactive radio's model: none without an expansion module; the main
/// module's when the expansion module is active, else the expansion module's.
pub open spec fn spec_inactive_radio_model(
    main: Option<Model>,
    expansion: Option<Model>,
    expansion_config_received: bool,
) -> Option<Model> {
    match expansion {
        Some(e) => if expansion_config_received {
            main
        } else {
            Some(e)
        },
        None => None,
    }
}

/// The active radio's model: the expansion module's when there is one and the
/// device has sent a configuration of it, else the main module's (or the
/// default model when the device named none).
pub fn active_radio_model(
    main: Option<Model>,
    expansion: Option<Model>,
    expansion_config_received: bool,
) -> (m: Model)
    ensures
        m == spec_active_radio_model(main, expansion, expansion_config_received),
{
    let main_or_default = match main {
        Some(m) => m,
        None => Model::Rfe6Gen,
    };
    let Some(exp_model) = expansion else {
        return main_or_default;
    };
    if expansion_config_received {
        exp_model
    } else {
        main_or_default
    }
}

/// The inactive radio's model: none without an expansion module; the main
/// module's when the expansion module is active, else the expansion module's.
pub fn inactive_radio_model(
    main: Option<Model>,
    expansion: Option<Model>,
    expansion_config_received: bool,
) -> (m: Option<Model>)
    ensures
        m == spec_inactive_radio_model(main, expansion, expansion_config_received),
{
    let Some(exp_model) = expansion else {
        return None;
    };
    if expansion_config_received {
        main
    } else {
        Some(exp_model)
    }
}

/// With both modules present, one is active and the other inactive: the
/// active and the inactive model are the main and the expansion model, in
/// some order. Without an expansion module, the main one is active and none
/// is inactive.
pub proof fn lemma_active_inactive_partition(
    main: Model,
    expansion: Option<Model>,
    received: bool,
)
    ensures
        expansion matches Some(e) ==> {
            let active = spec_active_radio_model(Some(main), expansion, received);
            let inactive = spec_inactive_radio_model(Some(main), expansion, received);
            ||| active == main && inactive == Some(e)
            ||| active == e && inactive == Some(main)
        },
        expansion is None ==> spec_active_radio_model(Some(main), expansion, received) == main
            && spec_inactive_radio_model(Some(main), expansion, received) is None,
{
}

} // verus!
