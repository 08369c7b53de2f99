use sha1::{Digest, Sha1};

use trane_cli::data::{TranscriptionLink, TranscriptionPreferences};
use trane_cli::path::{path_under, AssetPath, RelativePath};
use trane_cli::transcription_downloader::LocalTranscriptionDownloader;

const YT_LINK: &str = "https://www.youtube.com/watch?v=p4LgzLjF4xE";

fn youtube(url: &str) -> TranscriptionLink {
    TranscriptionLink::YouTube(url.to_string())
}

fn downloader(root: Option<&str>, alias: Option<&str>) -> LocalTranscriptionDownloader {
    LocalTranscriptionDownloader {
        preferences: TranscriptionPreferences {
            instruments: vec![],
            download_path: root.map(str::to_string),
            download_path_alias: alias.map(str::to_string),
        },
    }
}

#[test]
fn dir_name_is_sha1_in_lowercase_hex() {
    assert_eq!(
        LocalTranscriptionDownloader::download_dir_name(&youtube("hello world")),
        "2aae6c35c94fcfb415dbe95f408b9ce91ee846ed"
    );
    assert_eq!(
        LocalTranscriptionDownloader::download_dir_name(&youtube("")),
        "da39a3ee5e6b4b0d3255bfef95601890afd80709"
    );
    assert_eq!(
        LocalTranscriptionDownloader::download_dir_name(&youtube("abc")),
        "a9993e364706816aba3e25717850c26c9cd0d89d"
    );
}

#[test]
fn dir_name_hashes_the_utf8_bytes_of_the_link() {
    for url in [YT_LINK, "https://example.org/ünïcödé?v=日本語", "file:///tmp/a b.m4a"] {
        let expected = hex::encode(Sha1::digest(url.as_bytes()));
        assert_eq!(LocalTranscriptionDownloader::download_dir_name(&youtube(url)), expected);
    }
}

#[test]
fn dir_name_has_forty_lowercase_hex_digits() {
    let long = "x".repeat(10_000);
    for url in ["", "a", YT_LINK, "https://www.youtube.com/watch?v=badID", long.as_str()] {
        let name = LocalTranscriptionDownloader::download_dir_name(&youtube(url));
        assert_eq!(name.len(), 40);
        assert!(name.chars().all(|c| matches!(c, '0'..='9' | 'a'..='f')));
    }
}

#[test]
fn dir_name_is_stable() {
    let first = LocalTranscriptionDownloader::download_dir_name(&youtube(YT_LINK));
    let second = LocalTranscriptionDownloader::download_dir_name(&youtube(YT_LINK));
    let third = LocalTranscriptionDownloader::download_dir_name(&youtube(YT_LINK).clone());
    assert_eq!(first, second);
    assert_eq!(first, third);
}

#[test]
fn different_links_have_different_dir_names() {
    let urls = [
        "",
        "a",
        "b",
        "ab",
        "ba",
        YT_LINK,
        "https://www.youtube.com/watch?v=p4LgzLjF4xe",
        "https://www.youtube.com/watch?v=p4LgzLjF4xE ",
    ];
    for (i, a) in urls.iter().enumerate() {
        for b in urls.iter().skip(i + 1) {
            assert_ne!(
                LocalTranscriptionDownloader::download_dir_name(&youtube(a)),
                LocalTranscriptionDownloader::download_dir_name(&youtube(b))
            );
        }
    }
}

#[test]
fn file_name_is_fixed_for_the_provider() {
    assert_eq!(LocalTranscriptionDownloader::download_file_name(&youtube(YT_LINK)), "audio.m4a");
    assert_eq!(LocalTranscriptionDownloader::download_file_name(&youtube("x.mp3")), "audio.m4a");
}

#[test]
fn relative_path_is_dir_name_and_file_name() {
    assert_eq!(
        LocalTranscriptionDownloader::rel_download_path(&youtube("hello world")),
        RelativePath {
            directory: "2aae6c35c94fcfb415dbe95f408b9ce91ee846ed".to_string(),
            file_name: "audio.m4a".to_string(),
        }
    );
}

#[test]
fn full_paths_share_the_relative_part() {
    let link = youtube("hello world");
    let both = downloader(Some("/music"), Some("C:/Users/username/Music"));
    let path = both.full_download_path(&link).unwrap();
    let alias = both.full_alias_path(&link).unwrap();
    assert_eq!(path.root, "/music");
    assert_eq!(alias.root, "C:/Users/username/Music");
    assert_eq!(path.relative, alias.relative);
    assert_eq!(path.relative, LocalTranscriptionDownloader::rel_download_path(&link));
    assert_ne!(path, alias);

    // With the same root twice the two paths are the same path.
    let same = downloader(Some("/music"), Some("/music"));
    assert_eq!(same.full_download_path(&link), same.full_alias_path(&link));
}

#[test]
fn full_paths_need_their_root() {
    let link = youtube(YT_LINK);
    let neither = downloader(None, None);
    assert_eq!(neither.full_download_path(&link), None);
    assert_eq!(neither.full_alias_path(&link), None);
    let only_root = downloader(Some("/music"), None);
    assert!(only_root.full_download_path(&link).is_some());
    assert_eq!(only_root.full_alias_path(&link), None);
    let only_alias = downloader(None, Some("alias"));
    assert_eq!(only_alias.full_download_path(&link), None);
    assert_eq!(
        only_alias.full_alias_path(&link),
        Some(AssetPath {
            root: "alias".to_string(),
            relative: LocalTranscriptionDownloader::rel_download_path(&link),
        })
    );
    assert_eq!(path_under(&None, &link), None);
    assert_eq!(path_under(&Some(String::new()), &link).unwrap().root, "");
}

#[test]
fn link_gives_its_url() {
    assert_eq!(youtube(YT_LINK).url(), YT_LINK);
}

#[test]
fn default_preferences_are_empty() {
    let preferences = TranscriptionPreferences::default();
    assert!(preferences.instruments.is_empty());
    assert_eq!(preferences.download_path, None);
    assert_eq!(preferences.download_path_alias, None);
}
