use player_ui::playlist::PlayList;

fn sample() -> PlayList {
    let mut p = PlayList::new();
    p.add_music(String::from("a.mp3"));
    p.add_music(String::from("b.mp3"));
    p.add_music(String::from("c.mp3"));
    p
}

#[test]
fn new_playlist_is_empty() {
    let p = PlayList::new();
    assert_eq!(p.get_nb_musics(), 0);
    assert_eq!(p.get_pos(), 0);
    assert!(!p.get_repeat());
}

#[test]
fn add_music_appends_in_order() {
    let p = sample();
    assert_eq!(p.get_nb_musics(), 3);
    assert_eq!(p.to_vec(), vec!["a.mp3".to_string(), "b.mp3".to_string(), "c.mp3".to_string()]);
}

#[test]
fn add_music_skips_duplicate_label() {
    let mut p = sample();
    p.add_music(String::from("b.mp3"));
    assert_eq!(p.get_nb_musics(), 3);
    p.add_music(String::from("b.mp3"));
    assert_eq!(p.get_nb_musics(), 3);
}

#[test]
fn add_musics_keeps_order_and_skips_duplicates() {
    let mut p = PlayList::new();
    p.add_musics(vec![
        "x.mp3".to_string(),
        "y.mp3".to_string(),
        "x.mp3".to_string(),
        "z.mp3".to_string(),
    ]);
    assert_eq!(p.to_vec(), vec!["x.mp3".to_string(), "y.mp3".to_string(), "z.mp3".to_string()]);
}

#[test]
fn from_slice_copies_tracks() {
    let v = vec!["one".to_string(), "two".to_string()];
    let p = PlayList::from_slice(&v);
    assert_eq!(p.to_vec(), v);
    assert_eq!(p.get_pos(), 0);
}

#[test]
fn get_next_advances_and_wraps() {
    let mut p = sample();
    assert_eq!(p.get_next(), "b.mp3");
    assert_eq!(p.get_pos(), 1);
    assert_eq!(p.get_next(), "c.mp3");
    assert_eq!(p.get_next(), "a.mp3");
    assert_eq!(p.get_pos(), 0);
}

#[test]
fn get_prev_steps_back_and_wraps() {
    let mut p = sample();
    assert_eq!(p.get_prev(), "c.mp3");
    assert_eq!(p.get_pos(), 2);
    assert_eq!(p.get_prev(), "b.mp3");
    assert_eq!(p.get_prev(), "a.mp3");
    assert_eq!(p.get_prev(), "c.mp3");
}

#[test]
fn set_actual_clamps_to_last_track() {
    let mut p = sample();
    p.set_actual(1);
    assert_eq!(p.get_pos(), 1);
    p.set_actual(17);
    assert_eq!(p.get_pos(), 2);
}

#[test]
fn set_actual_on_empty_list_rests_at_zero() {
    let mut p = PlayList::new();
    p.set_actual(5);
    assert_eq!(p.get_pos(), 0);
}

#[test]
fn start_and_get_current() {
    let mut p = sample();
    assert_eq!(p.start(), "a.mp3");
    p.set_actual(2);
    assert_eq!(p.get_current(), "c.mp3");
}

#[test]
fn remove_current_drops_the_cursor_track() {
    let mut p = sample();
    p.set_actual(1);
    p.remove_current();
    assert_eq!(p.to_vec(), vec!["a.mp3".to_string(), "c.mp3".to_string()]);
    assert_eq!(p.get_pos(), 1);
    assert_eq!(p.get_current(), "c.mp3");
}

#[test]
fn remove_current_at_back_clamps_cursor() {
    let mut p = sample();
    p.set_actual(2);
    p.remove_current();
    assert_eq!(p.get_nb_musics(), 2);
    assert_eq!(p.get_pos(), 1);
}

#[test]
fn remove_current_down_to_empty() {
    let mut p = PlayList::new();
    p.add_music("only".to_string());
    p.remove_current();
    assert_eq!(p.get_nb_musics(), 0);
    assert_eq!(p.get_pos(), 0);
    p.remove_current();
    assert_eq!(p.get_nb_musics(), 0);
}

#[test]
fn repeat_flag_round_trip() {
    let mut p = PlayList::new();
    p.set_repeat(true);
    assert!(p.get_repeat());
    p.set_repeat(false);
    assert!(!p.get_repeat());
}
