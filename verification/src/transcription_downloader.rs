//! The asset cache as its users see it: whether an asset is there, where it
//! is kept, and how a download is begun.

use vstd::prelude::*;
use ustr::Ustr;
use crate::data::{ExerciseManifest, TranscriptionLink, TranscriptionPreferences};
use crate::download::{
    spec_next_state, spec_pending_action, Download, DownloadAction, DownloadActionView,
    DownloadEvent, DownloadRequest, DownloadState,
};
use crate::link::{get_transcription_link, spec_link_of};
use crate::path::{spec_full_alias_path, spec_full_download_path, AssetPath, AssetPathView};

verus! {

/// Downloads transcription assets to local storage.
pub struct LocalTranscriptionDownloader {
    /// Preferences for transcription courses.
    pub preferences: TranscriptionPreferences,
}

impl LocalTranscriptionDownloader {
    /// The place of an exercise's asset under the download root: nothing
    /// where the exercise has no link or no root is configured.
    pub open spec fn spec_transcription_download_path(
        &self,
        link: Option<TranscriptionLink>,
    ) -> Option<AssetPathView> {
        match link {
            Some(link) => spec_full_download_path(&self.preferences, &link),
            None => None,
        }
    }

    /// The place of an exercise's asset under the alias of the download
    /// root: nothing where the exercise has no link or no alias is
    /// configured.
    pub open spec fn spec_transcription_download_path_alias(
        &self,
        link: Option<TranscriptionLink>,
    ) -> Option<AssetPathView> {
        match link {
            Some(link) => spec_full_alias_path(&self.preferences, &link),
            None => None,
        }
    }

    /// Whether `downloaded` is a right answer for an exercise with this
    /// link: where a root is configured and the exercise has a link, what
    /// `asset_exists` says of the asset's place under the root; `false`
    /// otherwise.
    pub open spec fn spec_is_downloaded<P: Fn(&AssetPath) -> bool>(
        &self,
        link: Option<TranscriptionLink>,
        asset_exists: &P,
        downloaded: bool,
    ) -> bool {
        match self.spec_transcription_download_path(link) {
            Some(place) => exists|path: AssetPath|
                path@ == place && #[trigger] asset_exists.ensures((&path,), downloaded),
            None => !downloaded,
        }
    }

    /// The request that a download of an exercise with this link makes.
    pub open spec fn spec_request(
        &self,
        exercise_id: Ustr,
        force_download: bool,
        link: Option<TranscriptionLink>,
    ) -> DownloadRequest {
        DownloadRequest {
            exercise_id,
            force_download,
            link,
            download_path: self.preferences.download_path,
        }
    }

    /// Checks if the given asset has been downloaded. The answer is `false`
    /// where no download path is set or the exercise has no link; otherwise
    /// it is what `asset_exists` answers for the asset's place under the
    /// download path. The manifest is looked up at most once, `asset_exists`
    /// is asked at most once, and nothing else is done.
    pub fn is_transcription_asset_downloaded<F, P>(
        &self,
        exercise_id: Ustr,
        get_exercise_manifest: &F,
        asset_exists: &P,
    ) -> (downloaded: bool) where
        F: Fn(Ustr) -> Option<ExerciseManifest>,
        P: Fn(&AssetPath) -> bool,

        requires
            get_exercise_manifest.requires((exercise_id,)),
            forall|path: &AssetPath| asset_exists.requires((path,)),
        ensures
            self.preferences.download_path is None ==> !downloaded,
            self.preferences.download_path is Some ==> exists|manifest: Option<ExerciseManifest>|
                #[trigger] get_exercise_manifest.ensures((exercise_id,), manifest)
                    && self.spec_is_downloaded(spec_link_of(manifest), asset_exists, downloaded),
    {
        if self.preferences.download_path.is_none() {
            return false;
        }
        let link = match get_transcription_link(exercise_id, get_exercise_manifest) {
            Some(link) => link,
            None => {
                return false;
            },
        };
        match self.full_download_path(&link) {
            Some(download_path) => asset_exists(&download_path),
            None => false,
        }
    }

    /// Begins the download of the given asset: looks the exercise's link up,
    /// and returns the call after its first step, with the first action that
    /// the host is to perform. The host answers each action through
    /// [`Download::step`] until the call is over.
    pub fn download_transcription_asset<F>(
        &self,
        exercise_id: Ustr,
        force_download: bool,
        get_exercise_manifest: &F,
    ) -> (begun: (Download, DownloadAction)) where F: Fn(Ustr) -> Option<ExerciseManifest>
        requires
            get_exercise_manifest.requires((exercise_id,)),
        ensures
            exists|manifest: Option<ExerciseManifest>|
                #[trigger] get_exercise_manifest.ensures((exercise_id,), manifest)
                    && begun.0.request() == self.spec_request(
                    exercise_id,
                    force_download,
                    spec_link_of(manifest),
                ),
            begun.0.state() == spec_next_state(
                &begun.0.request(),
                DownloadState::NotRequested,
                DownloadEvent::Requested,
            ),
            begun.1@ == spec_pending_action(&begun.0.request(), &begun.0.state()),
    {
        let link = get_transcription_link(exercise_id, get_exercise_manifest);
        let download_path = match &self.preferences.download_path {
            Some(download_path) => Some(download_path.clone()),
            None => None,
        };
        let request = DownloadRequest { exercise_id, force_download, link, download_path };
        Download::new(request).step(DownloadEvent::Requested)
    }

    /// Returns the download path for the given asset, whether or not
    /// anything is there.
    pub fn transcription_download_path<F>(
        &self,
        exercise_id: Ustr,
        get_exercise_manifest: &F,
    ) -> (path: Option<AssetPath>) where F: Fn(Ustr) -> Option<ExerciseManifest>
        requires
            get_exercise_manifest.requires((exercise_id,)),
        ensures
            exists|manifest: Option<ExerciseManifest>|
                #[trigger] get_exercise_manifest.ensures((exercise_id,), manifest)
                    && path.deep_view() == self.spec_transcription_download_path(
                    spec_link_of(manifest),
                ),
    {
        match get_transcription_link(exercise_id, get_exercise_manifest) {
            Some(link) => self.full_download_path(&link),
            None => None,
        }
    }

    /// Returns the download path alias for the given asset. The alias is for
    /// showing only: nothing is ever read or written under it.
    pub fn transcription_download_path_alias<F>(
        &self,
        exercise_id: Ustr,
        get_exercise_manifest: &F,
    ) -> (path: Option<AssetPath>) where F: Fn(Ustr) -> Option<ExerciseManifest>
        requires
            get_exercise_manifest.requires((exercise_id,)),
        ensures
            exists|manifest: Option<ExerciseManifest>|
                #[trigger] get_exercise_manifest.ensures((exercise_id,), manifest)
                    && path.deep_view() == self.spec_transcription_download_path_alias(
                    spec_link_of(manifest),
                ),
    {
        match get_transcription_link(exercise_id, get_exercise_manifest) {
            Some(link) => self.full_alias_path(&link),
            None => None,
        }
    }
}

/// Without a download root no asset counts as downloaded, whether or not
/// the exercise has a link and whatever the file system holds.
pub proof fn law_not_downloaded_without_root<P: Fn(&AssetPath) -> bool>(
    downloader: &LocalTranscriptionDownloader,
    link: Option<TranscriptionLink>,
    asset_exists: &P,
    downloaded: bool,
)
    requires
        downloader.preferences.download_path is None,
        downloader.spec_is_downloaded(link, asset_exists, downloaded),
    ensures
        !downloaded,
{
}

/// The asset of an exercise without a link never counts as downloaded,
/// whatever root is configured and whatever the file system holds under it.
pub proof fn law_not_downloaded_without_link<P: Fn(&AssetPath) -> bool>(
    downloader: &LocalTranscriptionDownloader,
    asset_exists: &P,
    downloaded: bool,
)
    requires
        downloader.spec_is_downloaded(None, asset_exists, downloaded),
    ensures
        !downloaded,
{
}

/// The place that is looked at to tell whether an asset is downloaded is
/// the place that is reported as its path and the place that a download
/// writes to: where the exercise has a link and a root is configured, the
/// three are one.
pub proof fn law_one_place_for_an_asset(
    downloader: &LocalTranscriptionDownloader,
    exercise_id: Ustr,
    force_download: bool,
    link: TranscriptionLink,
)
    requires
        downloader.preferences.download_path is Some,
    ensures
        downloader.spec_transcription_download_path(Some(link)) is Some,
        spec_pending_action(
            &downloader.spec_request(exercise_id, force_download, Some(link)),
            &DownloadState::CheckingAsset,
        ) == (DownloadActionView::CheckAsset {
            path: downloader.spec_transcription_download_path(Some(link))->0,
        }),
        spec_pending_action(
            &downloader.spec_request(exercise_id, force_download, Some(link)),
            &DownloadState::Committing,
        ) is Commit,
        spec_pending_action(
            &downloader.spec_request(exercise_id, force_download, Some(link)),
            &DownloadState::Committing,
        )->destination == downloader.spec_transcription_download_path(Some(link))->0,
{
}

} // verus!
