use crest_player::protocol::Signal;
use crest_player::tools::{
    build_download_arguments, build_player_arguments, build_search_arguments,
    build_signal_arguments, downloader_name, player_name, signaller_name, POLL_INTERVAL_MILLIS,
};

#[test]
fn tool_names() {
    assert_eq!(downloader_name(), "yt-dlp");
    assert_eq!(player_name(), "ffplay");
    assert_eq!(signaller_name(), "kill");
    assert_eq!(POLL_INTERVAL_MILLIS, 500);
}

#[test]
fn download_arguments() {
    assert_eq!(
        build_download_arguments("https://www.youtube.com/watch?v=abc12345678", "/tmp/ytmusic_play_1.mp3"),
        vec![
            "-f",
            "bestaudio",
            "-x",
            "--audio-format",
            "mp3",
            "-o",
            "/tmp/ytmusic_play_1.mp3",
            "https://www.youtube.com/watch?v=abc12345678"
        ]
    );
}

#[test]
fn search_arguments() {
    assert_eq!(
        build_search_arguments("daft punk"),
        vec!["ytsearch20:daft punk", "--flat-playlist", "--dump-json"]
    );
}

#[test]
fn player_arguments() {
    assert_eq!(build_player_arguments("/m/a.mp3"), vec!["-nodisp", "-autoexit", "/m/a.mp3"]);
}

#[test]
fn signal_arguments() {
    assert_eq!(
        build_signal_arguments(Signal::Suspend(4242)),
        Some(vec!["-STOP".to_string(), "4242".to_string()])
    );
    assert_eq!(
        build_signal_arguments(Signal::Continue(1)),
        Some(vec!["-CONT".to_string(), "1".to_string()])
    );
    assert_eq!(build_signal_arguments(Signal::Kill(7)), None);
    assert_eq!(
        build_signal_arguments(Signal::Suspend(u32::MAX)),
        Some(vec!["-STOP".to_string(), "4294967295".to_string()])
    );
}
