use soundscapes::music::{
    is_favorite, resolve_playlist_tracks, select_next_index, select_prev_index,
};
use soundscapes::persist::{
    apply_volume_setting, build_preset, build_schedule, preset_info, sanitize_id,
    schedule_info, update_soundboard_metadata,
};
use soundscapes::settings::AmbientSettings;
use soundscapes::strmap::StrMap;
use soundscapes::types::{
    AppSettings, MusicPlaylist, PlaylistTrack, SchedulePreset, ScheduledItem, SoundboardSound,
};

fn settings() -> AppSettings {
    AppSettings {
        music_folder_path: String::from("m"),
        ambient_folder_path: String::from("a"),
        soundboard_folder_path: String::from("s"),
        presets_folder_path: String::from("p"),
        music_crossfade_ms: 3000,
        soundboard_duck_amount: 300,
        visualization_type: String::from("orb"),
        master_volume: 500,
        music_volume: 500,
        ambient_volume: 500,
        soundboard_volume: 500,
    }
}

fn track(id: &str, album: &str) -> PlaylistTrack {
    PlaylistTrack {
        id: String::from(id),
        file: format!("{id}.mp3"),
        title: String::from(id),
        artist: String::from("artist"),
        album: String::from(album),
        album_path: format!("/music/{album}"),
    }
}

#[test]
fn sanitize_lowercases_and_dashes() {
    assert_eq!(sanitize_id(&String::from("My Preset!")), "my-preset");
    assert_eq!(sanitize_id(&String::from("Rain_Day-2")), "rain_day-2");
    assert_eq!(sanitize_id(&String::from("---")), "");
    assert_eq!(sanitize_id(&String::from("  Dawn  ")), "dawn");
    assert_eq!(sanitize_id(&String::from("ABC")), "abc");
}

#[test]
fn build_preset_keeps_existing_identity() {
    let name = String::from("Evening Rain");
    let p = build_preset(&name, Vec::new(), String::from("t1"), None);
    assert_eq!(p.id, "evening-rain");
    assert_eq!(p.created, "t1");
    assert_eq!(p.modified, "t1");
    let p2 = build_preset(&name, Vec::new(), String::from("t2"), Some(p));
    assert_eq!(p2.id, "evening-rain");
    assert_eq!(p2.created, "t1");
    assert_eq!(p2.modified, "t2");
    let info = preset_info(&p2);
    assert_eq!(info.id, "evening-rain");
    assert_eq!(info.sound_count, 0);
}

#[test]
fn build_schedule_mirrors_preset_shape() {
    let name = String::from("Work Day");
    let item = ScheduledItem {
        id: String::from("i1"),
        preset_id: String::from("rain"),
        preset_name: String::from("Rain"),
        min_minutes: 5,
        max_minutes: 10,
        order: 0,
    };
    let s: SchedulePreset = build_schedule(&name, vec![item], String::from("t1"), None);
    assert_eq!(s.id, "work-day");
    let info = schedule_info(&s);
    assert_eq!(info.item_count, 1);
}

#[test]
fn volume_setting_keys_route_to_their_fields() {
    let mut s = settings();
    assert!(apply_volume_setting(&mut s, &String::from("master_volume"), 800).is_ok());
    assert_eq!(s.master_volume, 800);
    assert_eq!(s.music_volume, 500);
    assert!(apply_volume_setting(&mut s, &String::from("music_volume"), 700).is_ok());
    assert_eq!(s.music_volume, 700);
    assert!(apply_volume_setting(&mut s, &String::from("ambient_volume"), 600).is_ok());
    assert_eq!(s.ambient_volume, 600);
    assert!(apply_volume_setting(&mut s, &String::from("soundboard_volume"), 900).is_ok());
    assert_eq!(s.soundboard_volume, 900);
}

#[test]
fn unknown_volume_key_is_rejected() {
    let mut s = settings();
    let r = apply_volume_setting(&mut s, &String::from("wrong_key"), 800);
    assert!(r.is_err());
    assert_eq!(s.master_volume, 500);
}

#[test]
fn soundboard_edit_updates_only_the_named_sound() {
    let mut sounds = vec![
        SoundboardSound {
            id: String::from("ding"),
            name: String::from("Ding"),
            file: String::from("ding.wav"),
            volume: None,
            hotkey: None,
            color: None,
        },
        SoundboardSound {
            id: String::from("dong"),
            name: String::from("Dong"),
            file: String::from("dong.wav"),
            volume: Some(40),
            hotkey: None,
            color: None,
        },
    ];
    let r = update_soundboard_metadata(
        &mut sounds,
        &String::from("ding"),
        Some(String::from("Bell")),
        None,
        Some(String::from("red")),
        Some(80),
    );
    assert!(r.is_ok());
    assert_eq!(sounds[0].name, "Bell");
    assert_eq!(sounds[0].color.as_deref(), Some("red"));
    assert_eq!(sounds[0].volume, Some(80));
    assert_eq!(sounds[1].name, "Dong");
    assert_eq!(sounds[1].volume, Some(40));
}

#[test]
fn soundboard_edit_rejects_unknown_id() {
    let mut sounds: Vec<SoundboardSound> = Vec::new();
    let r = update_soundboard_metadata(&mut sounds, &String::from("nope"), None, None, None, None);
    assert!(r.is_err());
}

#[test]
fn favorites_membership() {
    let favs = vec![String::from("t1"), String::from("t2")];
    assert!(is_favorite(&favs, &String::from("t1")));
    assert!(!is_favorite(&favs, &String::from("t3")));
}

#[test]
fn playlist_resolution_covers_every_id_shape() {
    let all = vec![track("t1", "Alpha"), track("t2", "Beta"), track("t3", "Alpha")];
    let mut playlists: StrMap<MusicPlaylist> = StrMap::new();
    playlists.set(
        &String::from("mine"),
        MusicPlaylist {
            id: String::from("mine"),
            name: String::from("Mine"),
            is_auto: false,
            tracks: vec![track("t2", "Beta")],
        },
    );
    let favorites = vec![String::from("t3")];

    let r = resolve_playlist_tracks(&String::from("all-music"), &all, &playlists, &favorites);
    assert_eq!(r.len(), 3);

    let r = resolve_playlist_tracks(&String::from("favorites"), &all, &playlists, &favorites);
    assert_eq!(r.len(), 1);
    assert_eq!(r[0].id, "t3");

    let r = resolve_playlist_tracks(&String::from("album-Alpha"), &all, &playlists, &favorites);
    assert_eq!(r.len(), 2);
    assert_eq!(r[0].id, "t1");
    assert_eq!(r[1].id, "t3");

    let r = resolve_playlist_tracks(&String::from("mine"), &all, &playlists, &favorites);
    assert_eq!(r.len(), 1);
    assert_eq!(r[0].id, "t2");

    let r = resolve_playlist_tracks(&String::from("unknown"), &all, &playlists, &favorites);
    assert_eq!(r.len(), 0);
}

#[test]
fn next_index_is_sequential_and_wraps_only_when_looping() {
    assert_eq!(select_next_index(0, 3, false, false), Some(1));
    assert_eq!(select_next_index(2, 3, false, true), Some(0));
    assert_eq!(select_next_index(2, 3, false, false), None);
    for _ in 0..20 {
        let r = select_next_index(0, 3, true, false).unwrap();
        assert!((0..3).contains(&r));
    }
}

#[test]
fn prev_index_wraps_to_the_end() {
    assert_eq!(select_prev_index(0, 3), 2);
    assert_eq!(select_prev_index(2, 3), 1);
    assert_eq!(select_prev_index(-1, 3), 2);
}

#[test]
fn clamped_settings_reorder_reversed_windows() {
    let mut s = AmbientSettings::default();
    s.repeat_min = 7;
    s.repeat_max = 2;
    s.pitch = 9000;
    s.pan = -5000;
    s.volume = 2000;
    let c = s.clamped();
    assert_eq!(c.repeat_min, 2);
    assert_eq!(c.repeat_max, 7);
    assert_eq!(c.pitch, 2000);
    assert_eq!(c.pan, -1000);
    assert_eq!(c.volume, 1000);
}
