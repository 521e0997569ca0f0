use tunequeue::custom_source::{CompletionFuse, CustomSource, SampleStream};
use tunequeue::player::Player;
use tunequeue::selection;
use tunequeue::track::Track;

fn mk(title: &str, secs: u64) -> Track {
    Track::new(
        title.to_string(),
        None,
        None,
        format!("music/{title}.mp3"),
        secs * 1000,
    )
}

fn titles(p: &Player) -> Vec<String> {
    p.queue().iter().map(|t| t.title().clone()).collect()
}

#[test]
fn rotation_starts_at_given_index() {
    let catalog = vec![mk("t0", 30), mk("t1", 40), mk("t2", 50)];
    let mut p = Player::init();

    p.set_queue(&catalog, 0);
    assert_eq!(titles(&p), vec!["t0", "t1", "t2"]);

    p.set_queue(&catalog, 1);
    assert_eq!(titles(&p), vec!["t1", "t2", "t0"]);

    p.set_queue(&catalog, 2);
    assert_eq!(titles(&p), vec!["t2", "t0", "t1"]);

    // A start index past the end wraps around.
    p.set_queue(&catalog, 5);
    assert_eq!(titles(&p), vec!["t2", "t0", "t1"]);
}

#[test]
fn counter_stays_in_bounds() {
    let catalog = vec![mk("t0", 30), mk("t1", 40), mk("t2", 50)];
    let mut p = Player::init();
    p.set_queue(&catalog, 0);
    assert_eq!(p.queue_idx(), 0);

    // prev at the first track is a no-op.
    assert!(!p.prev());
    assert_eq!(p.queue_idx(), 0);

    assert!(p.next());
    assert!(p.next());
    assert_eq!(p.queue_idx(), 2);

    // next at the last track is a no-op.
    assert!(!p.next());
    assert_eq!(p.queue_idx(), 2);

    assert!(p.prev());
    assert!(p.prev());
    assert_eq!(p.queue_idx(), 0);
    assert!(!p.prev());
    assert_eq!(p.queue_idx(), 0);
}

#[test]
fn completions_advance_once_each() {
    let catalog = vec![mk("t0", 30), mk("t1", 40), mk("t2", 50)];
    let mut p = Player::init();
    p.set_queue(&catalog, 0);
    p.play();

    p.on_track_complete();
    assert_eq!(p.queue_idx(), 1);
    assert_eq!(p.now_playing().unwrap().title(), "t1");

    p.on_track_complete();
    assert_eq!(p.queue_idx(), 2);
    assert_eq!(p.now_playing().unwrap().title(), "t2");

    // The counter saturates at the last track.
    p.on_track_complete();
    assert_eq!(p.queue_idx(), 2);
    assert_eq!(p.now_playing().unwrap().title(), "t2");
}

#[test]
fn now_playing_matches_queue_after_each_op() {
    let catalog = vec![mk("t0", 30), mk("t1", 40), mk("t2", 50)];
    let mut p = Player::init();
    p.set_queue(&catalog, 2);
    p.play();
    assert_eq!(
        p.now_playing().unwrap().title(),
        p.queue()[p.queue_idx()].title()
    );

    p.next();
    assert_eq!(
        p.now_playing().unwrap().title(),
        p.queue()[p.queue_idx()].title()
    );

    p.on_track_complete();
    assert_eq!(
        p.now_playing().unwrap().title(),
        p.queue()[p.queue_idx()].title()
    );

    p.prev();
    assert_eq!(
        p.now_playing().unwrap().title(),
        p.queue()[p.queue_idx()].title()
    );
}

#[test]
fn duration_label_and_percentage() {
    let catalog = vec![mk("song", 605)];
    let mut p = Player::init();
    p.set_queue(&catalog, 0);
    p.play();

    assert_eq!(p.print_duration(125_000), "02:05 / 10:05");
    assert_eq!(p.current_duration_percentage(125_000), 20);
}

#[test]
fn placeholder_before_build() {
    let p = Player::init();
    assert!(p.now_playing().is_none());
    assert_eq!(p.print_duration(125_000), "--:-- / --:--");
    assert_eq!(p.current_duration_percentage(125_000), 0);
}

#[test]
fn end_to_end_three_tracks() {
    let catalog = vec![mk("t0", 30), mk("t1", 40), mk("t2", 50)];
    let mut p = Player::init();

    p.set_queue(&catalog, 1);
    assert_eq!(titles(&p), vec!["t1", "t2", "t0"]);

    p.play();
    assert!(!p.is_paused());
    assert_eq!(p.now_playing().unwrap().title(), "t1");
    assert_eq!(p.now_playing().unwrap().duration_ms(), 40_000);

    // Track t1 runs out.
    p.on_track_complete();
    assert_eq!(p.queue_idx(), 1);
    assert_eq!(p.now_playing().unwrap().title(), "t2");

    // Step back: the queue is re-fed from t1 and playback resumes.
    assert!(p.prev());
    assert_eq!(p.queue_idx(), 0);
    assert_eq!(p.now_playing().unwrap().title(), "t1");
    assert!(!p.is_paused());
}

#[test]
fn toggle_play_flips_pause() {
    let catalog = vec![mk("t0", 30)];
    let mut p = Player::init();
    p.set_queue(&catalog, 0);
    // Feeding the sink leaves it paused until play.
    assert!(p.is_paused());
    p.play();
    assert!(!p.is_paused());
    p.toggle_play();
    assert!(p.is_paused());
    p.toggle_play();
    assert!(!p.is_paused());
}

#[test]
fn stream_fires_signal_once_at_exhaustion() {
    let inner = SampleStream::new(vec![7, -3], 2, 44_100, Some(1_000), Some(2));
    let mut s = CustomSource::wrap(inner);

    assert_eq!(s.channels(), 2);
    assert_eq!(s.sample_rate(), 44_100);
    assert_eq!(s.total_duration(), Some(1_000));
    assert_eq!(s.current_frame_len(), Some(2));
    assert_eq!(s.size_hint(), (2, Some(2)));

    assert_eq!(s.next(), (Some(7), false));
    assert_eq!(s.next(), (Some(-3), false));
    assert_eq!(s.size_hint(), (0, Some(0)));

    // Exhaustion fires the one-shot signal, once.
    assert_eq!(s.next(), (None, true));
    assert_eq!(s.next(), (None, false));
    assert_eq!(s.next(), (None, false));

    // The properties are still forwarded unchanged.
    assert_eq!(s.channels(), 2);
    assert_eq!(s.total_duration(), Some(1_000));
}

#[test]
fn empty_stream_fires_on_first_pull() {
    let inner = SampleStream::new(Vec::new(), 1, 8_000, Some(0), None);
    let mut s = CustomSource::wrap(inner);
    assert_eq!(s.size_hint(), (0, Some(0)));
    assert_eq!(s.next(), (None, true));
    assert_eq!(s.next(), (None, false));
}

#[test]
fn fuse_forwards_unchanged() {
    let mut g = CompletionFuse::new();
    assert_eq!(g.forward(Some(41i16)), (Some(41), false));
    assert_eq!(g.forward::<i16>(None), (None, true));
    assert_eq!(g.forward::<i16>(None), (None, false));
    assert_eq!(g.forward(Some(9i16)), (Some(9), false));
    assert_eq!(g.forward::<i16>(None), (None, false));
}

#[test]
fn selection_wraps_around() {
    assert_eq!(selection::down(None, 3), 0);
    assert_eq!(selection::down(Some(0), 3), 1);
    assert_eq!(selection::down(Some(1), 3), 2);
    assert_eq!(selection::down(Some(2), 3), 0);

    assert_eq!(selection::up(None, 3), 0);
    assert_eq!(selection::up(Some(0), 3), 2);
    assert_eq!(selection::up(Some(2), 3), 1);

    assert_eq!(selection::down(Some(0), 1), 0);
    assert_eq!(selection::up(Some(0), 1), 0);
}

#[test]
fn stream_completions_drive_counter() {
    let catalog = vec![mk("t0", 1), mk("t1", 1), mk("t2", 1)];
    let mut p = Player::init();
    p.set_queue(&catalog, 0);
    p.play();

    // Run one stream per queued track to exhaustion; each fires exactly one
    // completion signal, which advances the counter.
    for _ in 0..3 {
        let inner = SampleStream::new(vec![0, 1], 2, 44_100, Some(1_000), None);
        let mut s = CustomSource::wrap(inner);
        loop {
            let (sample, fire) = s.next();
            if fire {
                p.on_track_complete();
            }
            if sample.is_none() {
                break;
            }
        }
    }

    assert_eq!(p.queue_idx(), 2);
    assert_eq!(p.now_playing().unwrap().title(), "t2");
}

#[test]
fn empty_catalog_builds_empty_queue() {
    let mut p = Player::init();
    p.set_queue(&Vec::new(), 0);
    assert!(p.queue().is_empty());
    assert_eq!(p.queue_idx(), 0);
    assert!(!p.next());
    assert!(!p.prev());
    p.play();
    assert!(p.now_playing().is_none());
    p.on_track_complete();
    assert_eq!(p.queue_idx(), 0);
    assert_eq!(p.print_duration(0), "--:-- / --:--");
}

#[test]
fn percentage_edges() {
    let mut p = Player::init();

    let zero = vec![mk("z", 0)];
    p.set_queue(&zero, 0);
    p.play();
    assert_eq!(p.current_duration_percentage(10_000), 0);

    let short = vec![mk("s", 10)];
    p.set_queue(&short, 0);
    p.play();
    assert_eq!(p.current_duration_percentage(5_000), 50);
    assert_eq!(p.current_duration_percentage(10_000), 100);
    // Elapsed past the total is clamped.
    assert_eq!(p.current_duration_percentage(25_000), 100);
    assert_eq!(p.current_duration_percentage(0), 0);
    // Truncating, not rounding.
    assert_eq!(p.current_duration_percentage(1_999), 19);
}

#[test]
fn label_handles_long_tracks() {
    let catalog = vec![mk("long", 6_005)];
    let mut p = Player::init();
    p.set_queue(&catalog, 0);
    p.play();
    // 6005 seconds is 100 minutes and 5 seconds; seconds stay two digits.
    assert_eq!(p.print_duration(59_999), "00:59 / 100:05");
    assert_eq!(p.print_duration(60_000), "01:00 / 100:05");
}
