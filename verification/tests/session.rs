use crest_player::player::{reclaim, resolve_remote, Player, Stream, Task};
use crest_player::protocol::{Liveness, Outcome, Reply, Request, Signal, Stage, Status};

fn s(text: &str) -> String {
    text.to_string()
}

fn playing(source: &str, title: &str, id: u32) -> Player {
    let mut player = Player::new();
    player.play(source, title);
    player.reply(Reply::Present(true));
    player.reply(Reply::Launched(Some(id)));
    player
}

#[test]
fn new_session_is_stopped_and_empty() {
    let player = Player::new();
    assert_eq!(player.process, None);
    assert_eq!(player.title, None);
    assert_eq!(player.status, Status::Stopped);
    assert!(player.queue.is_empty());
    assert_eq!(player.pending_temp_file, None);
    assert_eq!(player.task, None);
}

#[test]
fn play_local_file_goes_from_stopped_to_playing() {
    let mut player = Player::new();
    let first = player.play("/music/a.mp3", "A");
    assert_eq!(first, Outcome::asking(Request::Probe { path: s("/music/a.mp3") }));
    assert_eq!(player.status, Status::Stopped);
    let second = player.reply(Reply::Present(true));
    assert_eq!(second, Outcome::asking(Request::Launch { path: s("/music/a.mp3") }));
    assert_eq!(player.process, None);
    let third = player.reply(Reply::Launched(Some(41)));
    assert_eq!(third, Outcome::nothing());
    assert_eq!(player.process, Some(41));
    assert_eq!(player.title, Some(s("A")));
    assert_eq!(player.status, Status::Playing);
    assert_eq!(player.pending_temp_file, None);
    assert_eq!(player.task, None);
}

#[test]
fn enqueue_remote_id_while_idle_downloads_then_plays() {
    let mut player = Player::new();
    assert_eq!(player.status, Status::Stopped);
    let first = player.enqueue("abc12345678", "Song A");
    assert_eq!(first.request, Request::Probe { path: s("abc12345678") });
    assert!(player.queue.is_empty());
    let second = player.reply(Reply::Present(false));
    assert_eq!(
        second,
        Outcome::asking(Request::Fetch { url: s("https://www.youtube.com/watch?v=abc12345678") })
    );
    assert_eq!(player.status, Status::Downloading);
    let third = player.reply(Reply::Fetched {
        path: s("/tmp/ytmusic_play_1700000000000.mp3"),
        succeeded: true,
        present: true,
        diagnostic: s(""),
    });
    assert_eq!(
        third,
        Outcome::asking(Request::Launch { path: s("/tmp/ytmusic_play_1700000000000.mp3") })
    );
    assert_eq!(player.status, Status::Downloading);
    player.reply(Reply::Launched(Some(7)));
    assert_eq!(player.status, Status::Playing);
    assert_eq!(player.title, Some(s("Song A")));
    assert_eq!(player.process, Some(7));
    assert_eq!(player.pending_temp_file, Some(s("/tmp/ytmusic_play_1700000000000.mp3")));
}

#[test]
fn play_while_playing_queues_and_keeps_playing() {
    let mut player = playing("/music/a.mp3", "A", 5);
    let outcome = player.play("/music/b.mp3", "B");
    assert_eq!(outcome, Outcome::nothing());
    assert_eq!(player.queue, vec![(s("B"), s("/music/b.mp3"))]);
    assert_eq!(player.process, Some(5));
    assert_eq!(player.title, Some(s("A")));
    assert_eq!(player.status, Status::Playing);
}

#[test]
fn play_while_resolving_queues() {
    let mut player = Player::new();
    player.play("/music/a.mp3", "A");
    let outcome = player.play("/music/b.mp3", "B");
    assert_eq!(outcome, Outcome::nothing());
    assert_eq!(player.queue, vec![(s("B"), s("/music/b.mp3"))]);
    assert_eq!(
        player.task,
        Some(Task { title: s("A"), source: s("/music/a.mp3"), stage: Stage::Probing })
    );
}

#[test]
fn exit_takes_the_head_of_the_queue() {
    let mut player = playing("/music/a.mp3", "A", 5);
    player.play("/music/c.mp3", "C");
    let (changed, outcome) = player.is_playing(Liveness::Exited);
    assert!(changed);
    assert_eq!(outcome, Outcome::asking(Request::Probe { path: s("/music/c.mp3") }));
    assert!(player.queue.is_empty());
    player.reply(Reply::Present(true));
    player.reply(Reply::Launched(Some(6)));
    assert_eq!(player.status, Status::Playing);
    assert_eq!(player.title, Some(s("C")));
    assert_eq!(player.process, Some(6));
}

#[test]
fn exit_with_empty_queue_stops() {
    let mut player = playing("/music/a.mp3", "A", 5);
    let (changed, outcome) = player.is_playing(Liveness::Exited);
    assert!(!changed);
    assert_eq!(outcome, Outcome::nothing());
    assert_eq!(player.process, None);
    assert_eq!(player.title, None);
    assert_eq!(player.status, Status::Stopped);
}

#[test]
fn poll_without_process_changes_nothing() {
    let mut player = Player::new();
    player.queue.push((s("B"), s("/music/b.mp3")));
    let before = player.clone();
    for liveness in [Liveness::Running, Liveness::Exited, Liveness::Unknown] {
        let (changed, outcome) = player.is_playing(liveness);
        assert!(!changed);
        assert_eq!(outcome, Outcome::nothing());
        assert_eq!(player, before);
    }
}

#[test]
fn poll_running_reports_true_and_changes_nothing() {
    let mut player = playing("/music/a.mp3", "A", 5);
    let before = player.clone();
    let (changed, outcome) = player.is_playing(Liveness::Running);
    assert!(changed);
    assert_eq!(outcome, Outcome::nothing());
    assert_eq!(player, before);
}

#[test]
fn poll_unknown_reports_false_and_keeps_the_process() {
    let mut player = playing("/music/a.mp3", "A", 5);
    player.play("/music/b.mp3", "B");
    let before = player.clone();
    let (changed, outcome) = player.is_playing(Liveness::Unknown);
    assert!(!changed);
    assert_eq!(outcome, Outcome::nothing());
    assert_eq!(player, before);
}

#[test]
fn missing_stream_file_times_out_without_fallback() {
    let mut player = Player::new();
    let path = "/tmp/ytmusic_play_42.mp3";
    player.play(path, "Song A");
    let mut outcome = player.reply(Reply::Present(false));
    let mut waits = 0;
    while outcome.request == (Request::Await { path: s(path) }) {
        assert_eq!(player.status, Status::Downloading);
        waits += 1;
        outcome = player.reply(Reply::Present(false));
    }
    assert_eq!(waits, 120);
    assert_eq!(outcome, Outcome::asking(Request::List));
    assert_eq!(player.status, Status::Downloading);
    let last = player.reply(Reply::Listing(vec![(s("Other_ytmusic.mp3"), s("/lib/Other_ytmusic.mp3"))]));
    assert_eq!(last, Outcome::nothing());
    assert_eq!(player.status, Status::Error(s("download timed out")));
    assert!(player.status.label().contains("timed out"));
    assert_eq!(player.process, None);
    assert_eq!(player.title, None);
    assert_eq!(player.task, None);
}

#[test]
fn missing_stream_file_falls_back_to_the_library() {
    let mut player = Player::new();
    player.play("/tmp/ytmusic_play_42.mp3", "Song/A");
    player.reply(Reply::Present(false));
    for _ in 0..119 {
        player.reply(Reply::Present(false));
    }
    assert_eq!(
        player.task,
        Some(Task { title: s("Song/A"), source: s("/tmp/ytmusic_play_42.mp3"), stage: Stage::Awaiting(1) })
    );
    let outcome = player.reply(Reply::Present(false));
    assert_eq!(outcome.request, Request::List);
    let entries = vec![
        (s("Song_A.mp3"), s("/lib/Song_A.mp3")),
        (s("Song_A_ytmusic.txt"), s("/lib/Song_A_ytmusic.txt")),
        (s("Song_A_ytmusic.mp3"), s("/lib/Song_A_ytmusic.mp3")),
        (s("Song_A_ytmusic (1).mp3"), s("/lib/Song_A_ytmusic (1).mp3")),
    ];
    let outcome = player.reply(Reply::Listing(entries));
    assert_eq!(outcome, Outcome::asking(Request::Launch { path: s("/lib/Song_A_ytmusic.mp3") }));
    assert_eq!(player.pending_temp_file, None);
    player.reply(Reply::Launched(Some(3)));
    assert_eq!(player.status, Status::Playing);
    assert_eq!(player.title, Some(s("Song/A")));
}

#[test]
fn stream_file_that_appears_is_played_and_recorded() {
    let mut player = Player::new();
    let path = "/tmp/ytmusic_play_42.mp3";
    player.play(path, "Song A");
    player.reply(Reply::Present(false));
    player.reply(Reply::Present(false));
    let outcome = player.reply(Reply::Present(true));
    assert_eq!(outcome, Outcome::asking(Request::Launch { path: s(path) }));
    assert_eq!(player.pending_temp_file, Some(s(path)));
    player.reply(Reply::Launched(Some(9)));
    assert_eq!(player.status, Status::Playing);
}

#[test]
fn invalid_source_is_an_error() {
    let mut player = Player::new();
    player.play("no/such/file.ogg", "X");
    let outcome = player.reply(Reply::Present(false));
    assert_eq!(outcome, Outcome::nothing());
    assert_eq!(player.status, Status::Error(s("invalid source")));
    assert_eq!(player.process, None);
    assert_eq!(player.task, None);
}

#[test]
fn failed_download_reports_the_diagnostic() {
    let mut player = Player::new();
    player.play("abc12345678", "Song A");
    player.reply(Reply::Present(false));
    let outcome = player.reply(Reply::Fetched {
        path: s("/tmp/ytmusic_play_1.mp3"),
        succeeded: false,
        present: true,
        diagnostic: s("ERROR: video unavailable"),
    });
    assert_eq!(outcome, Outcome::nothing());
    assert_eq!(player.status, Status::Error(s("download failed: ERROR: video unavailable")));
    assert_eq!(player.process, None);
}

#[test]
fn download_without_file_never_launches() {
    let mut player = Player::new();
    player.play("abc12345678", "Song A");
    player.reply(Reply::Present(false));
    let outcome = player.reply(Reply::Fetched {
        path: s("/tmp/ytmusic_play_1.mp3"),
        succeeded: true,
        present: false,
        diagnostic: s(""),
    });
    assert_eq!(outcome, Outcome::nothing());
    assert_eq!(player.status, Status::Error(s("download failed: file not created")));
    assert_eq!(player.process, None);
    assert_eq!(player.title, None);
    assert_eq!(player.pending_temp_file, None);
}

#[test]
fn resolve_remote_needs_success_and_file() {
    assert_eq!(resolve_remote(s("/tmp/x.mp3"), true, true, "noise"), Ok(s("/tmp/x.mp3")));
    assert_eq!(
        resolve_remote(s("/tmp/x.mp3"), true, false, "noise"),
        Err(s("download failed: file not created"))
    );
    assert_eq!(resolve_remote(s("/tmp/x.mp3"), false, true, "boom"), Err(s("download failed: boom")));
    assert_eq!(resolve_remote(s("/tmp/x.mp3"), false, false, ""), Err(s("download failed: ")));
}

#[test]
fn player_that_does_not_start_is_an_error() {
    let mut player = Player::new();
    player.play("/music/a.mp3", "A");
    player.reply(Reply::Present(true));
    let outcome = player.reply(Reply::Launched(None));
    assert_eq!(outcome, Outcome::nothing());
    assert_eq!(player.status, Status::Error(s("player did not start")));
    assert_eq!(player.process, None);
    assert_eq!(player.title, None);
}

#[test]
fn error_lasts_until_the_next_play() {
    let mut player = Player::new();
    player.play("nowhere", "X");
    player.reply(Reply::Present(false));
    assert_eq!(player.status, Status::Error(s("invalid source")));
    assert_eq!(player.pause(), Outcome::nothing());
    assert_eq!(player.resume(), Outcome::nothing());
    assert_eq!(player.is_playing(Liveness::Exited), (false, Outcome::nothing()));
    assert_eq!(player.status, Status::Error(s("invalid source")));
    let outcome = player.play("/music/a.mp3", "A");
    assert_eq!(outcome.request, Request::Probe { path: s("/music/a.mp3") });
    assert_eq!(player.status, Status::Stopped);
}

#[test]
fn pause_and_resume_signal_the_process() {
    let mut player = playing("/music/a.mp3", "A", 77);
    let paused = player.pause();
    assert_eq!(paused.signal, Some(Signal::Suspend(77)));
    assert_eq!(paused.request, Request::Nothing);
    assert_eq!(player.status, Status::Paused);
    assert_eq!(player.process, Some(77));
    let resumed = player.resume();
    assert_eq!(resumed.signal, Some(Signal::Continue(77)));
    assert_eq!(player.status, Status::Playing);
    assert_eq!(player.process, Some(77));
}

#[test]
fn pause_and_resume_without_process_do_nothing() {
    let mut player = Player::new();
    let before = player.clone();
    assert_eq!(player.pause(), Outcome::nothing());
    assert_eq!(player, before);
    assert_eq!(player.resume(), Outcome::nothing());
    assert_eq!(player, before);
}

#[test]
fn toggle_follows_the_status() {
    let mut player = playing("/music/a.mp3", "A", 8);
    assert_eq!(player.toggle().signal, Some(Signal::Suspend(8)));
    assert_eq!(player.status, Status::Paused);
    assert_eq!(player.toggle().signal, Some(Signal::Continue(8)));
    assert_eq!(player.status, Status::Playing);
    let mut idle = Player::new();
    assert_eq!(idle.toggle(), Outcome::nothing());
    assert_eq!(idle.status, Status::Stopped);
}

#[test]
fn stop_twice_is_stop_once() {
    let mut player = playing("/music/a.mp3", "A", 12);
    player.play("/music/b.mp3", "B");
    let first = player.stop();
    assert_eq!(first.signal, Some(Signal::Kill(12)));
    assert_eq!(first.remove, None);
    assert_eq!(first.request, Request::Nothing);
    let once = player.clone();
    assert_eq!(once.status, Status::Stopped);
    assert_eq!(once.process, None);
    assert_eq!(once.title, None);
    assert_eq!(once.queue, vec![(s("B"), s("/music/b.mp3"))]);
    let second = player.stop();
    assert_eq!(second, Outcome::nothing());
    assert_eq!(player, once);
}

#[test]
fn stop_gives_up_a_resolution() {
    let mut player = Player::new();
    player.play("abc12345678", "Song A");
    player.reply(Reply::Present(false));
    assert_eq!(player.status, Status::Downloading);
    assert_eq!(player.stop(), Outcome::nothing());
    assert_eq!(player.status, Status::Stopped);
    assert_eq!(player.task, None);
    let late = player.reply(Reply::Fetched {
        path: s("/tmp/ytmusic_play_1.mp3"),
        succeeded: true,
        present: true,
        diagnostic: s(""),
    });
    assert_eq!(late, Outcome::nothing());
    assert_eq!(player.status, Status::Stopped);
}


#[test]
fn process_that_was_not_asked_for_is_killed() {
    let mut player = playing("/music/a.mp3", "A", 1);
    let before = player.clone();
    let outcome = player.reply(Reply::Launched(Some(2)));
    assert_eq!(outcome.signal, Some(Signal::Kill(2)));
    assert_eq!(player, before);
    let mut idle = Player::new();
    assert_eq!(idle.reply(Reply::Launched(Some(3))).signal, Some(Signal::Kill(3)));
    assert_eq!(idle.process, None);
    let mut probing = Player::new();
    probing.play("/music/a.mp3", "A");
    assert_eq!(probing.reply(Reply::Launched(Some(4))).signal, Some(Signal::Kill(4)));
    assert_eq!(probing.process, None);
    assert_eq!(probing.task.as_ref().map(|t| t.stage), Some(Stage::Probing));
}

#[test]
fn reply_to_no_request_changes_nothing() {
    let mut player = Player::new();
    let before = player.clone();
    assert_eq!(player.reply(Reply::Present(true)), Outcome::nothing());
    assert_eq!(player.reply(Reply::Listing(vec![])), Outcome::nothing());
    assert_eq!(player.reply(Reply::Launched(None)), Outcome::nothing());
    assert_eq!(player, before);
    player.play("/music/a.mp3", "A");
    let probing = player.clone();
    assert_eq!(player.reply(Reply::Listing(vec![])), Outcome::nothing());
    assert_eq!(player, probing);
}

#[test]
fn skip_kills_and_advances() {
    let mut player = playing("/tmp/ytmusic_play_5.mp3", "A", 30);
    assert_eq!(player.pending_temp_file, Some(s("/tmp/ytmusic_play_5.mp3")));
    player.play("/music/b.mp3", "B");
    let outcome = player.skip();
    assert_eq!(outcome.signal, Some(Signal::Kill(30)));
    assert_eq!(outcome.remove, Some(s("/tmp/ytmusic_play_5.mp3")));
    assert_eq!(outcome.request, Request::Probe { path: s("/music/b.mp3") });
    assert!(player.queue.is_empty());
    assert_eq!(player.process, None);
    assert_eq!(player.pending_temp_file, None);
}

#[test]
fn skip_with_empty_queue_stops() {
    let mut player = playing("/music/a.mp3", "A", 30);
    let outcome = player.skip();
    assert_eq!(outcome.signal, Some(Signal::Kill(30)));
    assert_eq!(outcome.request, Request::Nothing);
    assert_eq!(player.status, Status::Stopped);
    assert_eq!(player.process, None);
}

#[test]
fn quit_kills_and_clears_the_queue() {
    let mut player = playing("/music/a.mp3", "A", 30);
    player.play("/music/b.mp3", "B");
    player.play("/music/c.mp3", "C");
    let outcome = player.quit();
    assert_eq!(outcome.signal, Some(Signal::Kill(30)));
    assert!(player.queue.is_empty());
    assert_eq!(player.status, Status::Stopped);
    assert_eq!(player.process, None);
    assert_eq!(player.title, None);
}

#[test]
fn queue_is_first_in_first_out() {
    let mut player = Player::new();
    player.enqueue("/music/a.mp3", "A");
    player.reply(Reply::Present(true));
    player.reply(Reply::Launched(Some(1)));
    assert_eq!(player.title, Some(s("A")));
    player.enqueue("/music/b.mp3", "B");
    player.enqueue("/music/c.mp3", "C");
    assert_eq!(player.queue, vec![(s("B"), s("/music/b.mp3")), (s("C"), s("/music/c.mp3"))]);
    assert_eq!(player.is_playing(Liveness::Exited).0, true);
    assert_eq!(player.queue, vec![(s("C"), s("/music/c.mp3"))]);
    player.reply(Reply::Present(true));
    player.reply(Reply::Launched(Some(2)));
    assert_eq!(player.title, Some(s("B")));
    assert_eq!(player.is_playing(Liveness::Exited).0, true);
    assert!(player.queue.is_empty());
    player.reply(Reply::Present(true));
    player.reply(Reply::Launched(Some(3)));
    assert_eq!(player.title, Some(s("C")));
    assert_eq!(player.process, Some(3));
    assert_eq!(player.is_playing(Liveness::Exited), (false, Outcome::nothing()));
}

#[test]
fn at_most_one_process_over_a_run() {
    let mut player = Player::new();
    let mut live: Vec<u32> = Vec::new();
    let mut next_id = 100;
    let sources = ["/music/a.mp3", "/music/b.mp3", "/music/c.mp3", "/music/d.mp3"];
    for (round, source) in sources.iter().enumerate() {
        let mut outcome = if round % 2 == 0 {
            player.play(source, "T")
        } else {
            player.enqueue(source, "T")
        };
        loop {
            if let Some(Signal::Kill(id)) = outcome.signal {
                live.retain(|p| *p != id);
            }
            let reply = match outcome.request {
                Request::Nothing => break,
                Request::Probe { .. } => Reply::Present(true),
                Request::Launch { .. } => {
                    next_id += 1;
                    live.push(next_id);
                    Reply::Launched(Some(next_id))
                }
                _ => Reply::Present(false),
            };
            outcome = player.reply(reply);
        }
        assert!(live.len() <= 1);
        assert_eq!(player.process, live.first().copied());
    }
    assert_eq!(live.len(), 1);
    assert_eq!(player.queue.len(), 3);
}

#[test]
fn stream_file_is_reclaimed_after_exit_and_not_before() {
    let mut player = Player::new();
    let path = "/tmp/ytmusic_play_9.mp3";
    let first = player.play(path, "A");
    assert_eq!(first.remove, None);
    let second = player.reply(Reply::Present(true));
    assert_eq!(second.remove, None);
    let third = player.reply(Reply::Launched(Some(1)));
    assert_eq!(third.remove, None);
    assert_eq!(player.pending_temp_file, Some(s(path)));
    assert_eq!(player.play("/music/b.mp3", "B").remove, None);
    assert_eq!(player.is_playing(Liveness::Running).1.remove, None);
    assert_eq!(player.pause().remove, None);
    assert_eq!(player.resume().remove, None);
    let (_, after) = player.is_playing(Liveness::Exited);
    assert_eq!(after.remove, Some(s(path)));
    assert_eq!(player.pending_temp_file, None);
}

#[test]
fn library_file_is_never_reclaimed() {
    let mut player = playing("/home/u/Music/A_ytmusic.mp3", "A", 1);
    assert_eq!(player.pending_temp_file, None);
    let (_, outcome) = player.is_playing(Liveness::Exited);
    assert_eq!(outcome.remove, None);
    let mut idle = Player::new();
    idle.pending_temp_file = Some(s("/home/u/Music/A_ytmusic.mp3"));
    let outcome = idle.play("/music/b.mp3", "B");
    assert_eq!(outcome.remove, None);
    assert_eq!(idle.pending_temp_file, None);
}

#[test]
fn next_play_reclaims_the_outgoing_stream_file() {
    let mut player = playing("/tmp/ytmusic_play_9.mp3", "A", 1);
    player.stop();
    assert_eq!(player.pending_temp_file, Some(s("/tmp/ytmusic_play_9.mp3")));
    let outcome = player.play("/music/b.mp3", "B");
    assert_eq!(outcome.remove, Some(s("/tmp/ytmusic_play_9.mp3")));
    assert_eq!(outcome.request, Request::Probe { path: s("/music/b.mp3") });
}

#[test]
fn detached_download_queues_under_the_pending_title() {
    let mut player = Player::new();
    let stream = player.resolve_remote_async("Song A", "abc12345678", "/tmp/ytmusic_play_3.mp3");
    assert_eq!(
        stream,
        Stream {
            url: s("https://www.youtube.com/watch?v=abc12345678"),
            path: s("/tmp/ytmusic_play_3.mp3"),
            watch: true,
        }
    );
    assert_eq!(player.queue, vec![(s("Song A (Downloading...)"), s("/tmp/ytmusic_play_3.mp3"))]);
    assert_eq!(player.status, Status::Stopped);
    let mut busy = playing("/music/a.mp3", "A", 1);
    let stream = busy.resolve_remote_async("Song B", "xyz12345678", "/tmp/ytmusic_play_4.mp3");
    assert!(!stream.watch);
    assert_eq!(busy.queue.len(), 1);
    assert_eq!(busy.process, Some(1));
}

#[test]
fn find_library_file_takes_the_first_match() {
    let player = Player::new();
    let entries = vec![
        (s("B_ytmusic.mp3"), s("/lib/B_ytmusic.mp3")),
        (s("A_ytmusic.webm"), s("/lib/A_ytmusic.webm")),
        (s("A_ytmusic_v2.mp3"), s("/lib/A_ytmusic_v2.mp3")),
        (s("A_ytmusic.mp3"), s("/lib/A_ytmusic.mp3")),
    ];
    assert_eq!(player.find_library_file("A", &entries), Some(s("/lib/A_ytmusic_v2.mp3")));
    assert_eq!(player.find_library_file("B", &entries), Some(s("/lib/B_ytmusic.mp3")));
    assert_eq!(player.find_library_file("C", &entries), None);
    assert_eq!(player.find_library_file("A", &vec![]), None);
}

#[test]
fn status_labels() {
    assert_eq!(Status::Stopped.label(), "Stopped");
    assert_eq!(Status::Playing.label(), "Playing");
    assert_eq!(Status::Paused.label(), "Paused");
    assert_eq!(Status::Downloading.label(), "Downloading");
    assert_eq!(Status::Error(s("invalid source")).label(), "invalid source");
}

#[test]
fn reclaim_takes_stream_files_only() {
    assert_eq!(reclaim(s("/tmp/ytmusic_play_1.mp3")), Some(s("/tmp/ytmusic_play_1.mp3")));
    assert_eq!(reclaim(s("/home/u/Music/Song_ytmusic.mp3")), None);
    assert_eq!(reclaim(s("/home/u/notes.txt")), None);
    assert_eq!(reclaim(s("/tmp/ytmusic_play_1.mp3.part")), None);
    assert_eq!(reclaim(s("")), None);
}

#[test]
fn enqueue_while_idle_is_play() {
    let mut played = Player::new();
    let mut enqueued = Player::new();
    let first = played.play("/music/a.mp3", "A");
    let second = enqueued.enqueue("/music/a.mp3", "A");
    assert_eq!(first, second);
    assert_eq!(played, enqueued);
    assert!(enqueued.queue.is_empty());
    assert_eq!(enqueued.reply(Reply::Present(true)).request, Request::Launch { path: s("/music/a.mp3") });
    let mut busy_played = playing("/music/a.mp3", "A", 1);
    let mut busy_enqueued = playing("/music/a.mp3", "A", 1);
    assert_eq!(busy_played.play("/music/b.mp3", "B"), busy_enqueued.enqueue("/music/b.mp3", "B"));
    assert_eq!(busy_played, busy_enqueued);
}

#[test]
fn the_queue_keeps_duplicates() {
    let mut player = playing("/music/a.mp3", "A", 1);
    player.play("/music/b.mp3", "B");
    player.play("/music/b.mp3", "B");
    player.play("/music/a.mp3", "A");
    assert_eq!(
        player.queue,
        vec![(s("B"), s("/music/b.mp3")), (s("B"), s("/music/b.mp3")), (s("A"), s("/music/a.mp3"))]
    );
    assert_eq!(player.title, Some(s("A")));
}

#[test]
fn status_takes_only_its_steps() {
    let mut player = Player::new();
    player.play("nowhere", "X");
    player.reply(Reply::Present(false));
    assert_eq!(player.status, Status::Error(s("invalid source")));
    player.resolve_remote_async("T", "abc12345678", "/tmp/ytmusic_play_1.mp3");
    assert_eq!(player.status, Status::Error(s("invalid source")));
    assert_eq!(player.toggle(), Outcome::nothing());
    assert_eq!(player.status, Status::Error(s("invalid source")));
    player.stop();
    assert_eq!(player.status, Status::Stopped);
    let mut other = playing("/music/a.mp3", "A", 1);
    other.pause();
    assert_eq!(other.is_playing(Liveness::Exited), (false, Outcome::nothing()));
    assert_eq!(other.status, Status::Stopped);
}
