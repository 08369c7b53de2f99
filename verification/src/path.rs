//! Path resolution: where the cached copy of an asset lives. The directory is
//! named by the content of the link, so the same link always resolves to the
//! same place and no index of downloaded files is kept.

use vstd::prelude::*;
use vstd::utf8::{encode_utf8, encode_utf8_decode_utf8};
use crate::data::{TranscriptionLink, TranscriptionPreferences};
use crate::digest::{
    hex_encode, hex_lower, is_lower_hex, lemma_hex_lower_injective, lemma_hex_lower_shape,
    sha1_digest, sha1_of,
};
use crate::transcription_downloader::LocalTranscriptionDownloader;

verus! {

/// The length of a directory name: two hexadecimal digits for each byte of a
/// SHA-1 digest.
pub const DIR_NAME_LEN: usize = 40;

/// The place of an asset below a storage root: a directory and a file in it.
#[derive(Debug, PartialEq, Eq)]
pub struct RelativePath {
    /// The name of the directory, derived from the link.
    pub directory: String,
    /// The name of the file, fixed for each provider.
    pub file_name: String,
}

/// What a [`RelativePath`] holds, as text.
pub struct RelativePathView {
    pub directory: Seq<char>,
    pub file_name: Seq<char>,
}

impl View for RelativePath {
    type V = RelativePathView;

    open spec fn view(&self) -> RelativePathView {
        RelativePathView { directory: self.directory@, file_name: self.file_name@ }
    }
}

impl DeepView for RelativePath {
    type V = RelativePathView;

    open spec fn deep_view(&self) -> RelativePathView {
        self@
    }
}

impl Clone for RelativePath {
    fn clone(&self) -> (copy: Self)
        ensures
            copy == *self,
    {
        RelativePath { directory: self.directory.clone(), file_name: self.file_name.clone() }
    }
}

/// The place of an asset: a storage root and the asset's place below it. The
/// parts are kept apart; joining them into one path is left to the host.
#[derive(Debug, PartialEq, Eq)]
pub struct AssetPath {
    /// The storage root, as configured.
    pub root: String,
    /// The place of the asset below the root.
    pub relative: RelativePath,
}

/// What an [`AssetPath`] holds, as text.
pub struct AssetPathView {
    pub root: Seq<char>,
    pub relative: RelativePathView,
}

impl View for AssetPath {
    type V = AssetPathView;

    open spec fn view(&self) -> AssetPathView {
        AssetPathView { root: self.root@, relative: self.relative@ }
    }
}

impl DeepView for AssetPath {
    type V = AssetPathView;

    open spec fn deep_view(&self) -> AssetPathView {
        self@
    }
}

impl Clone for AssetPath {
    fn clone(&self) -> (copy: Self)
        ensures
            copy == *self,
    {
        AssetPath { root: self.root.clone(), relative: self.relative.clone() }
    }
}

/// The bytes that are hashed for a link: the UTF-8 encoding of its payload.
pub open spec fn spec_link_bytes(link: &TranscriptionLink) -> Seq<u8> {
    encode_utf8(link.payload())
}

/// The directory name of a link: the lowercase hexadecimal SHA-1 digest of
/// its payload.
pub open spec fn spec_download_dir_name(link: &TranscriptionLink) -> Seq<char> {
    hex_lower(sha1_digest(spec_link_bytes(link)))
}

/// The file name of a link, fixed for each provider: the conversion tool
/// always writes the same audio container, whatever the source holds.
pub open spec fn spec_download_file_name(link: &TranscriptionLink) -> Seq<char> {
    match link {
        TranscriptionLink::YouTube(_) => "audio.m4a"@,
    }
}

/// The place of a link's asset below any storage root.
pub open spec fn spec_rel_download_path(link: &TranscriptionLink) -> RelativePathView {
    RelativePathView {
        directory: spec_download_dir_name(link),
        file_name: spec_download_file_name(link),
    }
}

/// The place of a link's asset under a root, where one is configured.
pub open spec fn spec_path_under(root: Option<String>, link: &TranscriptionLink) -> Option<
    AssetPathView,
> {
    match root {
        Some(root) => Some(AssetPathView { root: root@, relative: spec_rel_download_path(link) }),
        None => None,
    }
}

/// The place of a link's asset under the download root.
pub open spec fn spec_full_download_path(
    preferences: &TranscriptionPreferences,
    link: &TranscriptionLink,
) -> Option<AssetPathView> {
    spec_path_under(preferences.download_path, link)
}

/// The place of a link's asset under the alias of the download root.
pub open spec fn spec_full_alias_path(
    preferences: &TranscriptionPreferences,
    link: &TranscriptionLink,
) -> Option<AssetPathView> {
    spec_path_under(preferences.download_path_alias, link)
}

/// Whether `name` is made of lowercase hexadecimal digits only.
pub open spec fn all_lower_hex(name: Seq<char>) -> bool {
    forall|i: int| 0 <= i < name.len() ==> is_lower_hex(#[trigger] name[i])
}

/// Links with the same payload have the same directory name, whenever and
/// wherever it is derived.
pub proof fn law_dir_name_stable(a: &TranscriptionLink, b: &TranscriptionLink)
    requires
        a.payload() == b.payload(),
    ensures
        spec_download_dir_name(a) == spec_download_dir_name(b),
{
}

/// Two links share a directory name exactly when their payloads have the
/// same SHA-1 digest: neither the encoding of the payload nor the hexadecimal
/// rendering of the digest makes two links collide. Links with different
/// payloads are hashed from different bytes.
pub proof fn law_dir_name_collides_only_with_digest(a: &TranscriptionLink, b: &TranscriptionLink)
    ensures
        spec_download_dir_name(a) == spec_download_dir_name(b) <==> sha1_digest(
            spec_link_bytes(a),
        ) == sha1_digest(spec_link_bytes(b)),
        a.payload() != b.payload() ==> spec_link_bytes(a) != spec_link_bytes(b),
{
    if spec_download_dir_name(a) == spec_download_dir_name(b) {
        lemma_hex_lower_injective(
            sha1_digest(spec_link_bytes(a)),
            sha1_digest(spec_link_bytes(b)),
        );
    }
    if spec_link_bytes(a) == spec_link_bytes(b) {
        encode_utf8_decode_utf8(a.payload());
        encode_utf8_decode_utf8(b.payload());
    }
}

/// Where both roots are configured, the path under the download root and
/// the path under its alias have the same directory and file name, each under
/// its own root; they are the same path only if the two roots are the same.
pub proof fn law_paths_share_relative_part(
    preferences: &TranscriptionPreferences,
    link: &TranscriptionLink,
)
    requires
        preferences.download_path is Some,
        preferences.download_path_alias is Some,
    ensures
        spec_full_download_path(preferences, link) is Some,
        spec_full_alias_path(preferences, link) is Some,
        spec_full_download_path(preferences, link)->0.relative == spec_full_alias_path(
            preferences,
            link,
        )->0.relative,
        spec_full_download_path(preferences, link)->0.relative == spec_rel_download_path(link),
        spec_full_download_path(preferences, link)->0.root == preferences.download_path->0@,
        spec_full_alias_path(preferences, link)->0.root == preferences.download_path_alias->0@,
        spec_full_download_path(preferences, link) != spec_full_alias_path(preferences, link)
            <==> preferences.download_path->0@ != preferences.download_path_alias->0@,
{
}

/// Gets the path to a link's asset under a root: nothing where there is no
/// root.
pub fn path_under(root: &Option<String>, link: &TranscriptionLink) -> (path: Option<AssetPath>)
    ensures
        path.deep_view() == spec_path_under(*root, link),
{
    match root {
        Some(root) => Some(
            AssetPath {
                root: root.clone(),
                relative: LocalTranscriptionDownloader::rel_download_path(link),
            },
        ),
        None => None,
    }
}

impl LocalTranscriptionDownloader {
    /// Gets the name of the directory where the asset should be downloaded.
    /// It depends on the link's payload alone, has forty characters and each
    /// of them is a lowercase hexadecimal digit.
    pub fn download_dir_name(link: &TranscriptionLink) -> (name: String)
        ensures
            name@ == spec_download_dir_name(link),
            name@.len() == DIR_NAME_LEN,
            all_lower_hex(name@),
    {
        let digest = match link {
            TranscriptionLink::YouTube(input) => sha1_of(input.as_str().as_bytes()),
        };
        proof {
            lemma_hex_lower_shape(digest@);
        }
        hex_encode(digest.as_slice())
    }

    /// Gets the name of the file to which download the asset.
    pub fn download_file_name(link: &TranscriptionLink) -> (name: String)
        ensures
            name@ == spec_download_file_name(link),
    {
        match link {
            TranscriptionLink::YouTube(_) => "audio.m4a".to_owned(),
        }
    }

    /// Generates a download path relative to the root download directory.
    pub fn rel_download_path(link: &TranscriptionLink) -> (path: RelativePath)
        ensures
            path@ == spec_rel_download_path(link),
    {
        RelativePath {
            directory: Self::download_dir_name(link),
            file_name: Self::download_file_name(link),
        }
    }

    /// Gets the full path to the asset file with the download directory
    /// prepended: nothing where no download directory is configured.
    pub fn full_download_path(&self, link: &TranscriptionLink) -> (path: Option<AssetPath>)
        ensures
            path.deep_view() == spec_full_download_path(&self.preferences, link),
    {
        path_under(&self.preferences.download_path, link)
    }

    /// Gets the full path to the asset file with the alias directory
    /// prepended: nothing where no alias is configured.
    pub fn full_alias_path(&self, link: &TranscriptionLink) -> (path: Option<AssetPath>)
        ensures
            path.deep_view() == spec_full_alias_path(&self.preferences, link),
    {
        path_under(&self.preferences.download_path_alias, link)
    }
}

} // verus!
