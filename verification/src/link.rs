//! Link extraction: which external asset, if any, an exercise refers to.

use vstd::prelude::*;
use ustr::Ustr;
use crate::data::{ExerciseAsset, ExerciseManifest, TranscriptionLink};

verus! {

/// The link that a manifest carries: that of a transcription asset which has
/// one, and nothing for every other content.
pub open spec fn spec_extract_transcription_link(manifest: &ExerciseManifest) -> Option<
    TranscriptionLink,
> {
    match manifest.exercise_asset {
        ExerciseAsset::TranscriptionAsset { external_link, .. } => external_link,
        _ => None,
    }
}

/// The link that a looked-up manifest carries; nothing where the lookup found
/// no manifest.
pub open spec fn spec_link_of(manifest: Option<ExerciseManifest>) -> Option<TranscriptionLink> {
    match manifest {
        Some(manifest) => spec_extract_transcription_link(&manifest),
        None => None,
    }
}

/// Extracts the transcription link from an exercise manifest.
pub fn extract_transcription_link(manifest: &ExerciseManifest) -> (link: Option<TranscriptionLink>)
    ensures
        link == spec_extract_transcription_link(manifest),
{
    match &manifest.exercise_asset {
        ExerciseAsset::TranscriptionAsset { external_link: Some(link), .. } => Some(link.clone()),
        _ => None,
    }
}

/// Gets the transcription link for an exercise: looks its manifest up once and
/// extracts the link from whatever the lookup returned.
pub fn get_transcription_link<F>(exercise_id: Ustr, get_exercise_manifest: &F) -> (link: Option<
    TranscriptionLink,
>) where F: Fn(Ustr) -> Option<ExerciseManifest>
    requires
        get_exercise_manifest.requires((exercise_id,)),
    ensures
        exists|manifest: Option<ExerciseManifest>|
            #[trigger] get_exercise_manifest.ensures((exercise_id,), manifest) && link
                == spec_link_of(manifest),
{
    match get_exercise_manifest(exercise_id) {
        Some(manifest) => extract_transcription_link(&manifest),
        None => None,
    }
}

} // verus!
