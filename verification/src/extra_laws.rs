//! Fields that the schema does not know are ignored.
use vstd::prelude::*;
use vstd::string::*;

use crate::abi::CorvidAbi;
use crate::audit::{topic_answer, Topic};
use crate::committed::committed_checks;
use crate::diff::{is_diff, BundleDiff, BundleSide};
use crate::manifest::{BundleManifest, LoadedManifest};
use crate::rebuild::{next_state, RebuildEvent, RebuildState};
use crate::report::{
    are_rebuilt_places, is_control, is_receipt_text, shows_rebuild, shows_signed_evidence,
    Soc2Control,
};

verus! {

/// The loaded manifest with other unknown fields.
pub open spec fn with_extra(
    loaded: LoadedManifest,
    extra: Vec<(String, String)>,
) -> LoadedManifest {
    LoadedManifest { manifest: BundleManifest { extra, ..loaded.manifest }, ..loaded }
}

/// Unknown fields change no path and no check of the committed artifacts.
pub proof fn law_extra_fields_change_no_check(
    loaded: LoadedManifest,
    extra: Vec<(String, String)>,
    relative: Seq<char>,
    path: Seq<char>,
)
    ensures
        with_extra(loaded, extra).resolves(relative, path) == loaded.resolves(relative, path),
        committed_checks(with_extra(loaded, extra).manifest) == committed_checks(loaded.manifest),
{
}

/// Unknown fields change no step of a rebuild.
pub proof fn law_extra_fields_change_no_step(
    loaded: LoadedManifest,
    extra: Vec<(String, String)>,
    state: RebuildState,
    event: RebuildEvent,
)
    ensures
        next_state(with_extra(loaded, extra), state, event) == next_state(loaded, state, event),
{
}

/// Unknown fields change no difference between bundles.
pub proof fn law_extra_fields_change_no_diff(
    old_side: BundleSide,
    new_side: BundleSide,
    old_extra: Vec<(String, String)>,
    new_extra: Vec<(String, String)>,
    diff: BundleDiff,
)
    ensures
        is_diff(
            BundleSide { loaded: with_extra(old_side.loaded, old_extra), ..old_side },
            BundleSide { loaded: with_extra(new_side.loaded, new_extra), ..new_side },
            diff,
        ) == is_diff(old_side, new_side, diff),
{
}

proof fn lemma_same_controls(
    loaded: LoadedManifest,
    other: LoadedManifest,
    control: Soc2Control,
)
    requires
        loaded == with_extra(other, loaded.manifest.extra),
    ensures
        shows_signed_evidence(loaded, control) ==> shows_signed_evidence(other, control),
        shows_rebuild(loaded, control) ==> shows_rebuild(other, control),
{
    if shows_signed_evidence(loaded, control) {
        let (descriptor, receipt) = choose|descriptor: Seq<char>, receipt: Seq<char>| #[trigger]
            loaded.resolves(loaded.manifest.descriptor_path@, descriptor)
                && #[trigger] is_receipt_text(loaded, receipt) && is_control(
                control,
                "CC7.2"@,
                "Change management and signed evidence"@,
                seq![descriptor, receipt],
            );
        assert(other.resolves(other.manifest.descriptor_path@, descriptor));
        assert(is_receipt_text(other, receipt));
    }
    if shows_rebuild(loaded, control) {
        let (library, rust, python) = choose|
            library: Seq<char>,
            rust: Seq<char>,
            python: Seq<char>,
        | #[trigger]
            are_rebuilt_places(loaded, library, rust, python) && is_control(
                control,
                "A1.2"@,
                "Deterministic rebuild and binding projection"@,
                seq!["corvid bundle verify --rebuild"@, library, rust, python],
            );
        assert(are_rebuilt_places(other, library, rust, python));
    }
}

/// Unknown fields change no answer and no control of the report.
pub proof fn law_extra_fields_change_no_report(
    loaded: LoadedManifest,
    extra: Vec<(String, String)>,
    abi: CorvidAbi,
    topic: Topic,
    control: Soc2Control,
)
    ensures
        topic_answer(with_extra(loaded, extra).manifest, abi, topic) == topic_answer(
            loaded.manifest,
            abi,
            topic,
        ),
        shows_signed_evidence(with_extra(loaded, extra), control) == shows_signed_evidence(
            loaded,
            control,
        ),
        shows_rebuild(with_extra(loaded, extra), control) == shows_rebuild(loaded, control),
{
    lemma_same_controls(loaded, with_extra(loaded, extra), control);
    lemma_same_controls(with_extra(loaded, extra), loaded, control);
}

} // verus!
