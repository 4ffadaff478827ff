use std::path::Path;

use miata_dash::library::{cover_image, decode_rgba8, file_extension, file_stem, is_supported_audio, Track};
use miata_dash::music::{move_to_front, MusicSession, PlayerCommand};

fn track(i: usize) -> Track {
    Track::from_entry(
        format!("/music/a/b/t{i}.mp3"),
        &vec!["a".to_string(), "b".to_string(), format!("t{i}.mp3")],
        &format!("t{i}.mp3"),
        100 + i as u64,
        0,
    )
}

fn session(n: usize, has_output: bool, shuffle: bool, looped: bool) -> MusicSession {
    MusicSession::new((0..n).map(track).collect(), has_output, None, shuffle, looped)
}

#[test]
fn supported_audio_by_extension() {
    for name in ["a.mp3", "b.FLAC", "c.M4a", "d.aac", "x.y.wav", "z.Ogg"] {
        assert!(is_supported_audio(name), "{name}");
    }
    for name in ["a.mp4", "mp3", ".mp3", "a.mp3.txt", "a.", "..", "noext", "a.mp33", "a.ṁp3"] {
        assert!(!is_supported_audio(name), "{name}");
    }
}

#[test]
fn extension_and_stem_match_std_paths() {
    for name in ["a.mp3", "b.tar.gz", ".hidden", ".hidden.ogg", "foo.", "..", "plain", "ä.ü", "a..b"] {
        let p = Path::new(name);
        let ext = p.extension().map(|e| e.to_string_lossy().to_string());
        assert_eq!(file_extension(name), ext, "{name}");
        if let Some(stem) = p.file_stem() {
            assert_eq!(file_stem(name), stem.to_string_lossy(), "{name}");
        }
    }
}

#[test]
fn track_labels_fall_back_to_unknown() {
    let t = Track::from_entry("/m/x.mp3".to_string(), &vec!["x.mp3".to_string()], "x.mp3", 3, 5);
    assert_eq!(t.artist, "x.mp3");
    assert_eq!(t.album, "Unknown Album");
    assert_eq!(t.title, "x");
    assert_eq!((t.duration_secs, t.duration_nanos), (3, 5));
    let t = Track::from_entry(
        "/m/A/B/.mp3".to_string(),
        &vec!["".to_string(), "".to_string(), ".mp3".to_string()],
        ".mp3",
        0,
        0,
    );
    assert_eq!(t.artist, "Unknown Artist");
    assert_eq!(t.album, "Unknown Album");
    assert_eq!(t.title, ".mp3");
    let t = Track::from_entry("/m/A/B/C/song.flac".to_string(), &vec![
        "A".to_string(),
        "B".to_string(),
        "C".to_string(),
        "song.flac".to_string(),
    ], "song.flac", 0, 0);
    assert_eq!((t.artist.as_str(), t.album.as_str(), t.title.as_str()), ("A", "B", "song"));
}

#[test]
fn new_session_is_paused_in_library_order() {
    let s = session(3, true, false, false);
    assert!(s.is_paused());
    assert_eq!(s.current_track_index(), Some(0));
    assert_eq!(s.current_track().unwrap().title, "t0");
    assert_eq!(s.current_duration(), Some((100, 0)));
    let empty = session(0, true, false, false);
    assert_eq!(empty.current_track_index(), None);
    assert!(empty.current_track().is_none());
}

#[test]
fn next_and_previous_wrap_around() {
    let mut s = session(3, true, false, false);
    assert_eq!(s.next(), PlayerCommand::Play(1));
    assert_eq!(s.next(), PlayerCommand::Play(2));
    assert_eq!(s.next(), PlayerCommand::Play(0));
    assert_eq!(s.previous(), PlayerCommand::Play(2));
    assert_eq!(s.next(), PlayerCommand::Play(0));
    assert_eq!(s.previous(), PlayerCommand::Play(2));
    assert_eq!(s.previous(), PlayerCommand::Play(1));
    let mut empty = session(0, true, false, false);
    assert_eq!(empty.next(), PlayerCommand::Idle);
    assert_eq!(empty.previous(), PlayerCommand::Idle);
}

#[test]
fn no_output_records_error() {
    let mut s = MusicSession::new((0..2).map(track).collect(), false, Some("Audio output unavailable: x".to_string()), false, false);
    assert_eq!(s.last_error().map(|e| e.as_str()), Some("Audio output unavailable: x"));
    assert_eq!(s.play_pause_toggle(true), PlayerCommand::Idle);
    assert_eq!(s.last_error().map(|e| e.as_str()), Some("No audio output available"));
    assert_eq!(s.next(), PlayerCommand::Idle);
    assert_eq!(s.current_track_index(), Some(1));
}

#[test]
fn play_pause_cycle() {
    let mut s = session(2, true, false, false);
    assert_eq!(s.play_pause_toggle(true), PlayerCommand::Play(0));
    s.playback_started();
    assert!(!s.is_paused());
    assert_eq!(s.last_error(), None);
    assert_eq!(s.play_pause_toggle(false), PlayerCommand::Pause);
    assert!(s.is_paused());
    assert_eq!(s.play_pause_toggle(false), PlayerCommand::Resume);
    assert!(!s.is_paused());
    s.record_error("Failed to seek: x".to_string());
    assert_eq!(s.last_error().map(|e| e.as_str()), Some("Failed to seek: x"));
}

#[test]
fn tick_advances_or_loops() {
    let mut s = session(3, true, false, false);
    assert_eq!(s.play_pause_toggle(true), PlayerCommand::Play(0));
    s.playback_started();
    assert_eq!(s.tick(false), PlayerCommand::Idle);
    assert_eq!(s.tick(true), PlayerCommand::Play(1));
    s.loop_toggle();
    assert!(s.is_loop_enabled());
    assert_eq!(s.tick(true), PlayerCommand::Play(1));
    assert_eq!(s.play_pause_toggle(false), PlayerCommand::Pause);
    assert_eq!(s.tick(true), PlayerCommand::Idle);
    s.loop_toggle();
    assert!(!s.is_loop_enabled());
}

#[test]
fn shuffle_keeps_current_track_and_unshuffle_restores_order() {
    for _ in 0..20 {
        let mut s = session(8, true, false, false);
        s.next();
        s.next();
        assert_eq!(s.current_track_index(), Some(2));
        s.shuffle_toggle();
        assert!(s.is_shuffle_enabled());
        assert_eq!(s.current_track_index(), Some(2));
        let mut seen = Vec::new();
        for _ in 0..8 {
            seen.push(s.current_track_index().unwrap());
            s.next();
        }
        assert_eq!(seen[0], 2);
        seen.sort();
        assert_eq!(seen, (0..8).collect::<Vec<_>>());
        s.next();
        let current = s.current_track_index();
        s.shuffle_toggle();
        assert!(!s.is_shuffle_enabled());
        assert_eq!(s.current_track_index(), current);
        let c = current.unwrap();
        s.next();
        assert_eq!(s.current_track_index(), Some((c + 1) % 8));
    }
}

#[test]
fn shuffled_new_session_is_a_permutation() {
    let mut s = session(5, true, true, false);
    let mut seen = Vec::new();
    for _ in 0..5 {
        seen.push(s.current_track_index().unwrap());
        s.next();
    }
    seen.sort();
    assert_eq!(seen, vec![0, 1, 2, 3, 4]);
}

#[test]
fn shuffle_draws_new_orders() {
    let mut orders = Vec::new();
    for _ in 0..10 {
        let mut s = session(8, true, false, false);
        s.shuffle_toggle();
        let mut order = Vec::new();
        for _ in 0..8 {
            order.push(s.current_track_index().unwrap());
            s.next();
        }
        orders.push(order);
    }
    assert!(orders.iter().any(|o| *o != (0..8).collect::<Vec<_>>()));
}

#[test]
fn move_to_front_swaps_first_occurrence() {
    assert_eq!(move_to_front(vec![3, 1, 2, 0], Some(2)), vec![2, 1, 3, 0]);
    assert_eq!(move_to_front(vec![3, 1, 2, 0], Some(3)), vec![3, 1, 2, 0]);
    assert_eq!(move_to_front(vec![3, 1, 2, 0], Some(7)), vec![3, 1, 2, 0]);
    assert_eq!(move_to_front(vec![3, 1, 2, 0], None), vec![3, 1, 2, 0]);
    assert_eq!(move_to_front(vec![5, 2, 2], Some(2)), vec![2, 5, 2]);
    assert_eq!(move_to_front(vec![], Some(0)), Vec::<usize>::new());
}

fn png(width: u32, height: u32, rgb: Vec<u8>) -> Vec<u8> {
    let img = image::RgbImage::from_raw(width, height, rgb).unwrap();
    let mut out = std::io::Cursor::new(Vec::new());
    img.write_to(&mut out, image::ImageFormat::Png).unwrap();
    out.into_inner()
}

#[test]
fn cover_image_decodes_first_picture_of_chosen_tag() {
    let red_blue = png(2, 1, vec![255, 0, 0, 0, 0, 255]);
    let green = png(1, 1, vec![0, 255, 0]);
    let expected = Some((2, 1, vec![255, 0, 0, 255, 0, 0, 255, 255]));
    assert_eq!(decode_rgba8(&red_blue), expected);
    assert_eq!(decode_rgba8(b"not an image"), None);

    let primary = vec![red_blue.clone(), green.clone()];
    let first = vec![green.clone()];
    assert_eq!(cover_image(Some(&primary), Some(&first)), expected);
    assert_eq!(cover_image(None, Some(&primary)), expected);
    assert_eq!(cover_image(None, Some(&first)), Some((1, 1, vec![0, 255, 0, 255])));
    assert_eq!(cover_image(Some(&vec![]), Some(&first)), None);
    assert_eq!(cover_image(None, None), None);
    assert_eq!(cover_image(Some(&vec![b"junk".to_vec()]), None), None);
}
