//! Changing from one overlay to another.
use crate::app::App;
use crate::app::CustomField;
use crate::app::Overlay;
use crate::app::Picker;
use crate::app::ProviderEditor;
use crate::app::TranscriptView;
use crate::modal::Modal;
use vstd::prelude::*;

verus! {

/// Whether `modal` covers the transcript; the permission sheet leaves it in
/// view.
pub open spec fn covers_transcript(modal: Modal) -> bool {
    modal != Modal::Closed && modal != Modal::Permission
}

/// Whether the picker is open in or behind `modal`, so that it keeps the model
/// list it shows.
pub open spec fn keeps_stage(modal: Modal) -> bool {
    modal == Modal::Provider || modal == Modal::ModelEditor || modal == Modal::AddModel
}

/// The state with `modal` in place of what was open. What belongs to another
/// overlay is given up, and no step is lit up behind an overlay. `b` stands for
/// the emptied field list of the provider editor.
pub open spec fn with_modal(a: App, modal: Modal, b: App) -> App {
    App {
        overlay: Overlay { active_modal: modal, ..a.overlay },
        view: TranscriptView {
            hovered_step: if covers_transcript(modal) {
                None
            } else {
                a.view.hovered_step
            },
            ..a.view
        },
        picker: Picker {
            picker_provider: if keeps_stage(modal) {
                a.picker.picker_provider
            } else {
                None
            },
            add_model_provider: if modal == Modal::AddModel {
                a.picker.add_model_provider
            } else {
                None
            },
            ..a.picker
        },
        provider_editor: if modal == Modal::CustomProvider {
            a.provider_editor
        } else {
            ProviderEditor {
                custom_fields: b.provider_editor.custom_fields,
                ..a.provider_editor
            }
        },
        ..a
    }
}

/// Whether the provider editor has no fields where `modal` is another overlay.
pub open spec fn fields_given_up(modal: Modal, b: App) -> bool {
    modal != Modal::CustomProvider ==> b.provider_editor.custom_fields@ == Seq::<
        CustomField,
    >::empty()
}

/// Whether `modal` was put in place of what was open.
pub open spec fn switched(a: App, modal: Modal, b: App) -> bool {
    fields_given_up(modal, b) && b == with_modal(a, modal, b)
}

/// Whether nothing is left of an overlay that is not open, and no step is lit
/// up behind one that is.
pub open spec fn overlays_settled(a: App) -> bool {
    let modal = a.overlay.active_modal;
    &&& !keeps_stage(modal) ==> a.picker.picker_provider is None
    &&& modal != Modal::AddModel ==> a.picker.add_model_provider is None
    &&& modal != Modal::CustomProvider ==> a.provider_editor.custom_fields@.len() == 0
    &&& covers_transcript(modal) ==> a.view.hovered_step is None
}

impl App {
    /// Puts `modal` in place of what is open.
    pub fn switch_modal(&mut self, modal: Modal)
        ensures
            switched(*old(self), modal, *final(self)),
    {
        self.overlay.active_modal = modal;
        if modal != Modal::Closed && modal != Modal::Permission {
            self.view.hovered_step = None;
        }
        if modal != Modal::Provider && modal != Modal::ModelEditor && modal != Modal::AddModel {
            self.picker.picker_provider = None;
        }
        if modal != Modal::AddModel {
            self.picker.add_model_provider = None;
        }
        if modal != Modal::CustomProvider {
            self.provider_editor.custom_fields = Vec::new();
            assert(self.provider_editor.custom_fields@ =~= Seq::<CustomField>::empty());
        }
    }
}

/// Whatever was open, nothing is left of it once another overlay has taken its
/// place.
pub proof fn law_switching_settles(a: App, modal: Modal, b: App)
    requires
        switched(a, modal, b),
        modal != Modal::CustomProvider,
        !keeps_stage(modal),
    ensures
        overlays_settled(b),
{
}

} // verus!
