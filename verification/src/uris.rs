//! The WAAPI topic URIs that the monitor subscribes to, as `waapi_rs` defines them.
//!
//! Each function below hands out one constant of `waapi_rs::ak::wwise`; its contract
//! states the text that the crate's `uris.rs` gives that constant.

use vstd::prelude::*;

verus! {

/// `waapi_rs::ak::wwise::core::AUDIO_IMPORTED`: claimed to be the text `ak.wwise.core.audio.imported`.
#[verifier::external_body]
pub(crate) fn audio_imported() -> (uri: &'static str)
    ensures
        uri@ == "ak.wwise.core.audio.imported"@,
{
    waapi_rs::ak::wwise::core::AUDIO_IMPORTED
}

/// `waapi_rs::ak::wwise::core::OBJECT_ATTENUATION_CURVE_CHANGED`: claimed to be the text `ak.wwise.core.object.attenuationCurveChanged`.
#[verifier::external_body]
pub(crate) fn object_attenuation_curve_changed() -> (uri: &'static str)
    ensures
        uri@ == "ak.wwise.core.object.attenuationCurveChanged"@,
{
    waapi_rs::ak::wwise::core::OBJECT_ATTENUATION_CURVE_CHANGED
}

/// `waapi_rs::ak::wwise::core::OBJECT_ATTENUATION_CURVE_LINK_CHANGED`: claimed to be the text `ak.wwise.core.object.attenuationCurveLinkChanged`.
#[verifier::external_body]
pub(crate) fn object_attenuation_curve_link_changed() -> (uri: &'static str)
    ensures
        uri@ == "ak.wwise.core.object.attenuationCurveLinkChanged"@,
{
    waapi_rs::ak::wwise::core::OBJECT_ATTENUATION_CURVE_LINK_CHANGED
}

/// `waapi_rs::ak::wwise::core::OBJECT_CHILD_ADDED`: claimed to be the text `ak.wwise.core.object.childAdded`.
#[verifier::external_body]
pub(crate) fn object_child_added() -> (uri: &'static str)
    ensures
        uri@ == "ak.wwise.core.object.childAdded"@,
{
    waapi_rs::ak::wwise::core::OBJECT_CHILD_ADDED
}

/// `waapi_rs::ak::wwise::core::OBJECT_CHILD_REMOVED`: claimed to be the text `ak.wwise.core.object.childRemoved`.
#[verifier::external_body]
pub(crate) fn object_child_removed() -> (uri: &'static str)
    ensures
        uri@ == "ak.wwise.core.object.childRemoved"@,
{
    waapi_rs::ak::wwise::core::OBJECT_CHILD_REMOVED
}

/// `waapi_rs::ak::wwise::core::OBJECT_CREATED`: claimed to be the text `ak.wwise.core.object.created`.
#[verifier::external_body]
pub(crate) fn object_created() -> (uri: &'static str)
    ensures
        uri@ == "ak.wwise.core.object.created"@,
{
    waapi_rs::ak::wwise::core::OBJECT_CREATED
}

/// `waapi_rs::ak::wwise::core::OBJECT_CURVE_CHANGED`: claimed to be the text `ak.wwise.core.object.curveChanged`.
#[verifier::external_body]
pub(crate) fn object_curve_changed() -> (uri: &'static str)
    ensures
        uri@ == "ak.wwise.core.object.curveChanged"@,
{
    waapi_rs::ak::wwise::core::OBJECT_CURVE_CHANGED
}

/// `waapi_rs::ak::wwise::core::OBJECT_NAME_CHANGED`: claimed to be the text `ak.wwise.core.object.nameChanged`.
#[verifier::external_body]
pub(crate) fn object_name_changed() -> (uri: &'static str)
    ensures
        uri@ == "ak.wwise.core.object.nameChanged"@,
{
    waapi_rs::ak::wwise::core::OBJECT_NAME_CHANGED
}

/// `waapi_rs::ak::wwise::core::OBJECT_NOTES_CHANGED`: claimed to be the text `ak.wwise.core.object.notesChanged`.
#[verifier::external_body]
pub(crate) fn object_notes_changed() -> (uri: &'static str)
    ensures
        uri@ == "ak.wwise.core.object.notesChanged"@,
{
    waapi_rs::ak::wwise::core::OBJECT_NOTES_CHANGED
}

/// `waapi_rs::ak::wwise::core::OBJECT_POST_DELETED`: claimed to be the text `ak.wwise.core.object.postDeleted`.
#[verifier::external_body]
pub(crate) fn object_post_deleted() -> (uri: &'static str)
    ensures
        uri@ == "ak.wwise.core.object.postDeleted"@,
{
    waapi_rs::ak::wwise::core::OBJECT_POST_DELETED
}

/// `waapi_rs::ak::wwise::core::OBJECT_PROPERTY_CHANGED`: claimed to be the text `ak.wwise.core.object.propertyChanged`.
#[verifier::external_body]
pub(crate) fn object_property_changed() -> (uri: &'static str)
    ensures
        uri@ == "ak.wwise.core.object.propertyChanged"@,
{
    waapi_rs::ak::wwise::core::OBJECT_PROPERTY_CHANGED
}

/// `waapi_rs::ak::wwise::core::OBJECT_REFERENCE_CHANGED`: claimed to be the text `ak.wwise.core.object.referenceChanged`.
#[verifier::external_body]
pub(crate) fn object_reference_changed() -> (uri: &'static str)
    ensures
        uri@ == "ak.wwise.core.object.referenceChanged"@,
{
    waapi_rs::ak::wwise::core::OBJECT_REFERENCE_CHANGED
}

/// `waapi_rs::ak::wwise::core::PROJECT_LOADED`: claimed to be the text `ak.wwise.core.project.loaded`.
#[verifier::external_body]
pub(crate) fn project_loaded() -> (uri: &'static str)
    ensures
        uri@ == "ak.wwise.core.project.loaded"@,
{
    waapi_rs::ak::wwise::core::PROJECT_LOADED
}

/// `waapi_rs::ak::wwise::core::PROJECT_POST_CLOSED`: claimed to be the text `ak.wwise.core.project.postClosed`.
#[verifier::external_body]
pub(crate) fn project_post_closed() -> (uri: &'static str)
    ensures
        uri@ == "ak.wwise.core.project.postClosed"@,
{
    waapi_rs::ak::wwise::core::PROJECT_POST_CLOSED
}

/// `waapi_rs::ak::wwise::core::PROJECT_SAVED`: claimed to be the text `ak.wwise.core.project.saved`.
#[verifier::external_body]
pub(crate) fn project_saved() -> (uri: &'static str)
    ensures
        uri@ == "ak.wwise.core.project.saved"@,
{
    waapi_rs::ak::wwise::core::PROJECT_SAVED
}

/// `waapi_rs::ak::wwise::core::SOUNDBANK_GENERATED`: claimed to be the text `ak.wwise.core.soundbank.generated`.
#[verifier::external_body]
pub(crate) fn soundbank_generated() -> (uri: &'static str)
    ensures
        uri@ == "ak.wwise.core.soundbank.generated"@,
{
    waapi_rs::ak::wwise::core::SOUNDBANK_GENERATED
}

/// `waapi_rs::ak::wwise::core::SOUNDBANK_GENERATION_DONE`: claimed to be the text `ak.wwise.core.soundbank.generationDone`.
#[verifier::external_body]
pub(crate) fn soundbank_generation_done() -> (uri: &'static str)
    ensures
        uri@ == "ak.wwise.core.soundbank.generationDone"@,
{
    waapi_rs::ak::wwise::core::SOUNDBANK_GENERATION_DONE
}

/// `waapi_rs::ak::wwise::core::SWITCH_CONTAINER_ASSIGNMENT_ADDED`: claimed to be the text `ak.wwise.core.switchContainer.assignmentAdded`.
#[verifier::external_body]
pub(crate) fn switch_container_assignment_added() -> (uri: &'static str)
    ensures
        uri@ == "ak.wwise.core.switchContainer.assignmentAdded"@,
{
    waapi_rs::ak::wwise::core::SWITCH_CONTAINER_ASSIGNMENT_ADDED
}

/// `waapi_rs::ak::wwise::core::SWITCH_CONTAINER_ASSIGNMENT_REMOVED`: claimed to be the text `ak.wwise.core.switchContainer.assignmentRemoved`.
#[verifier::external_body]
pub(crate) fn switch_container_assignment_removed() -> (uri: &'static str)
    ensures
        uri@ == "ak.wwise.core.switchContainer.assignmentRemoved"@,
{
    waapi_rs::ak::wwise::core::SWITCH_CONTAINER_ASSIGNMENT_REMOVED
}

/// `waapi_rs::ak::wwise::core::TRANSPORT_STATE_CHANGED`: claimed to be the text `ak.wwise.core.transport.stateChanged`.
#[verifier::external_body]
pub(crate) fn transport_state_changed() -> (uri: &'static str)
    ensures
        uri@ == "ak.wwise.core.transport.stateChanged"@,
{
    waapi_rs::ak::wwise::core::TRANSPORT_STATE_CHANGED
}

/// `waapi_rs::ak::wwise::ui::SELECTION_CHANGED`: claimed to be the text `ak.wwise.ui.selectionChanged`.
#[verifier::external_body]
pub(crate) fn selection_changed() -> (uri: &'static str)
    ensures
        uri@ == "ak.wwise.ui.selectionChanged"@,
{
    waapi_rs::ak::wwise::ui::SELECTION_CHANGED
}

} // verus!
