//! The format-negotiation state machine.
//!
//! One negotiation round: the bus delivers a format-parameter notification;
//! it is parsed into a raw candidate; the graphics backend is asked to
//! fixate it; and depending on the answer the stream either stays
//! unconfigured, re-advertises with the chosen modifier pinned (when the bus
//! asked not to fixate yet), or pushes the authoritative buffer parameters.

use vstd::prelude::*;

use crate::format::{EnumFormatInfo, EnumFormatInfoView, FixateFormat, VideoRawInfo};
use crate::params::{
    build_format, build_stream_params, objects_view, spec_format_object, spec_stream_params,
    PodObject, PodObjectView,
};

verus! {

/// What a negotiation round decided.
#[derive(Debug)]
pub enum NegotiationAction {
    /// No acceptable format: the stream is left unconfigured for this round.
    Unconfigured,
    /// Discovery round: re-advertise with the chosen modifier pinned first,
    /// followed by the full catalog; the next round will fixate.
    UpdateFormatParams(Vec<PodObject>),
    /// Fixation done: push these authoritative buffer parameters.
    UpdateBufferParams(Vec<PodObject>),
}

/// Spec-level value of a [`NegotiationAction`].
#[verifier::ext_equal]
pub enum NegotiationActionView {
    Unconfigured,
    UpdateFormatParams(Seq<PodObjectView>),
    UpdateBufferParams(Seq<PodObjectView>),
}

impl View for NegotiationAction {
    type V = NegotiationActionView;

    open spec fn view(&self) -> NegotiationActionView {
        match self {
            NegotiationAction::Unconfigured => NegotiationActionView::Unconfigured,
            NegotiationAction::UpdateFormatParams(params) => {
                NegotiationActionView::UpdateFormatParams(objects_view(params@))
            },
            NegotiationAction::UpdateBufferParams(params) => {
                NegotiationActionView::UpdateBufferParams(objects_view(params@))
            },
        }
    }
}

/// Spec-level view of a candidate-format catalog.
pub open spec fn catalog_view(catalog: Seq<EnumFormatInfo>) -> Seq<EnumFormatInfoView> {
    catalog.map_values(|g: EnumFormatInfo| g@)
}

/// Every advertised candidate group offers at least one format.
pub open spec fn catalog_wf(catalog: Seq<EnumFormatInfoView>) -> bool {
    forall|i: int| 0 <= i < catalog.len() ==> #[trigger] catalog[i].formats.len() >= 1
}

/// The parameter set of a re-advertisement: the candidate's format with the
/// single chosen modifier pinned, then the full catalog again.
pub open spec fn spec_readvertise_params(
    width: u32,
    height: u32,
    catalog: Seq<EnumFormatInfoView>,
    format: crate::format::Format,
    chosen_modifier: u64,
) -> Seq<PodObjectView> {
    seq![spec_format_object(width, height, seq![format], seq![chosen_modifier], true)].add(
        catalog.map_values(
            |g: EnumFormatInfoView| spec_format_object(width, height, g.formats, g.modifiers, false),
        ),
    )
}

/// The decision a negotiation round comes to, given the parsed candidate and
/// the backend's fixation answer:
/// - no answer — or an answer without a modifier although the candidate
///   carries a modifier list — leaves the stream unconfigured;
/// - a modifier list under a don't-fixate flag triggers a re-advertisement
///   with the chosen modifier pinned;
/// - otherwise the buffer parameters for the fixated layout are pushed.
pub open spec fn spec_negotiate(
    width: u32,
    height: u32,
    catalog: Seq<EnumFormatInfoView>,
    raw: crate::format::VideoRawInfoView,
    fixated: Option<FixateFormat>,
) -> NegotiationActionView {
    match fixated {
        None => NegotiationActionView::Unconfigured,
        Some(fx) => {
            if raw.modifiers.len() > 0 && fx.modifier is None {
                NegotiationActionView::Unconfigured
            } else if raw.modifiers.len() > 0 && raw.dont_fixate_modifier {
                NegotiationActionView::UpdateFormatParams(
                    spec_readvertise_params(width, height, catalog, raw.format, fx.modifier->0),
                )
            } else {
                NegotiationActionView::UpdateBufferParams(
                    spec_stream_params(fx.planes, fx.modifier is Some),
                )
            }
        },
    }
}

/// Carries out one negotiation round's decision, exactly as
/// [`spec_negotiate`] states it.  The decision depends only on the
/// arguments, so re-delivering the same notification with the same fixation
/// answer decides the same action (see
/// [`lemma_negotiation_idempotent`](crate::laws::lemma_negotiation_idempotent)).
pub fn negotiate_param_change(
    width: u32,
    height: u32,
    catalog: &Vec<EnumFormatInfo>,
    raw: &VideoRawInfo,
    fixated: Option<FixateFormat>,
) -> (action: NegotiationAction)
    requires
        catalog_wf(catalog_view(catalog@)),
        fixated matches Some(fx) ==> fx.planes <= 0x7fff_ffff,
    ensures
        action@ == spec_negotiate(width, height, catalog_view(catalog@), raw@, fixated),
{
    let fx = match fixated {
        None => {
            return NegotiationAction::Unconfigured;
        },
        Some(fx) => fx,
    };

    if raw.modifiers.len() > 0 {
        let chosen: u64 = match fx.modifier {
            None => {
                // The backend accepted the format but named no modifier even
                // though the candidate carries a modifier list: there is
                // nothing coherent to advertise, so the round fails.
                return NegotiationAction::Unconfigured;
            },
            Some(m) => m,
        };
        if raw.dont_fixate_modifier {
            let mut single_format: Vec<crate::format::Format> = Vec::new();
            single_format.push(raw.format);
            let mut single_modifier: Vec<u64> = Vec::new();
            single_modifier.push(chosen);
            let pinned = build_format(width, height, &single_format, &single_modifier, true);
            proof {
                assert(single_format@ =~= seq![raw.format]);
                assert(single_modifier@ =~= seq![chosen]);
            }

            let mut params: Vec<PodObject> = Vec::new();
            params.push(pinned);
            let mut i: usize = 0;
            while i < catalog.len()
                invariant
                    i <= catalog@.len(),
                    catalog_wf(catalog_view(catalog@)),
                    params@.len() == i + 1,
                    objects_view(params@)[0] == spec_format_object(
                        width,
                        height,
                        seq![raw.format],
                        seq![chosen],
                        true,
                    ),
                    forall|j: int|
                        0 <= j < i ==> objects_view(params@)[j + 1] == spec_format_object(
                            width,
                            height,
                            catalog_view(catalog@)[j].formats,
                            catalog_view(catalog@)[j].modifiers,
                            false,
                        ),
                decreases catalog@.len() - i,
            {
                proof {
                    assert(catalog_view(catalog@)[i as int] == catalog@[i as int]@);
                }
                let obj = build_format(
                    width,
                    height,
                    &catalog[i].formats,
                    &catalog[i].modifiers,
                    false,
                );
                params.push(obj);
                i = i + 1;
            }
            proof {
                assert(objects_view(params@) =~~= spec_readvertise_params(
                    width,
                    height,
                    catalog_view(catalog@),
                    raw.format,
                    chosen,
                ));
            }
            return NegotiationAction::UpdateFormatParams(params);
        }
    }

    let params = build_stream_params(fx.planes, fx.modifier.is_some());
    NegotiationAction::UpdateBufferParams(params)
}

} // verus!
