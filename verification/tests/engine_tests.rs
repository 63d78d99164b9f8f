use soundscapes::engine::{AudioCommand, Engine};
use soundscapes::settings::AmbientSettings;
use soundscapes::types::CurrentTrackInfo;

fn rain_settings() -> AmbientSettings {
    let mut s = AmbientSettings::default();
    s.volume = 500;
    s
}

fn track_info(id: &str) -> CurrentTrackInfo {
    CurrentTrackInfo {
        id: String::from(id),
        title: String::from("Title"),
        artist: String::from("Artist"),
        album: String::from("Album"),
        file_path: format!("{id}.mp3"),
    }
}

fn idle(e: &mut Engine) -> Vec<soundscapes::engine::EnqueueRequest> {
    e.idle_tick()
}

#[test]
fn fresh_engine_has_unity_masters_and_nothing_playing() {
    let e = Engine::new();
    assert_eq!(e.masters.master_volume, 1000);
    assert_eq!(e.masters.music_volume, 1000);
    assert!(e.music.sink.is_none());
    assert!(e.get_progress().is_finished);
    assert_eq!(e.get_playback_state().frequencies.len(), 64);
}

#[test]
fn ambient_voice_fades_in_and_alternates_a_and_b() {
    let mut e = Engine::new();
    let id = String::from("rain");
    e.on_play_ambient(
        &id,
        String::from("A.ogg"),
        String::from("B.ogg"),
        rain_settings(),
        true,
    );
    assert!(e.ambient.voices.contains(&id));
    assert!(e.ambient.fading_in.contains(&id));
    assert_eq!(e.ambient.voices.get(&id).unwrap().sink.volume, 0);
    // four idle ticks finish the fade-in at the full effective gain
    for _ in 0..4 {
        idle(&mut e);
    }
    assert!(!e.ambient.fading_in.contains(&id));
    assert_eq!(e.ambient.voices.get(&id).unwrap().sink.volume, 500);
    assert!(e.ambient.voices.get(&id).unwrap().is_playing_a);
    // file A drains: the machine hands over to B
    e.observe(true, true, &vec![id.clone()]);
    let reqs = idle(&mut e);
    assert_eq!(reqs.len(), 1);
    assert_eq!(reqs[0].id, "rain");
    assert_eq!(reqs[0].path, "B.ogg");
    assert!(!e.ambient.voices.get(&id).unwrap().is_playing_a);
    assert!(!e.ambient.voices.get(&id).unwrap().sink.empty);
    // file B drains: straight back to A, countdown drawn again from [1,1]
    e.observe(true, true, &vec![id.clone()]);
    let reqs = idle(&mut e);
    assert_eq!(reqs.len(), 1);
    assert_eq!(reqs[0].path, "A.ogg");
    assert!(e.ambient.voices.get(&id).unwrap().is_playing_a);
    assert_eq!(e.ambient.voices.get(&id).unwrap().loops_remaining, 1);
    assert!(!e.ambient.fading_in.contains(&id));
}

#[test]
fn preloaded_paths_mark_enqueues_as_cached() {
    let mut e = Engine::new();
    let id = String::from("rain");
    e.on_preload_ambient(&vec![String::from("B.ogg")]);
    e.on_play_ambient(
        &id,
        String::from("A.ogg"),
        String::from("B.ogg"),
        rain_settings(),
        true,
    );
    e.observe(true, true, &vec![id.clone()]);
    let reqs = idle(&mut e);
    assert_eq!(reqs.len(), 1);
    assert_eq!(reqs[0].path, "B.ogg");
    assert!(reqs[0].from_cache);
    e.observe(true, true, &vec![id.clone()]);
    let reqs = idle(&mut e);
    assert_eq!(reqs[0].path, "A.ogg");
    assert!(!reqs[0].from_cache);
}

#[test]
fn stop_ambient_fades_out_and_removes_within_four_ticks() {
    let mut e = Engine::new();
    let id = String::from("rain");
    e.on_play_ambient(
        &id,
        String::from("A.ogg"),
        String::from("B.ogg"),
        rain_settings(),
        true,
    );
    for _ in 0..4 {
        idle(&mut e);
    }
    e.on_stop_ambient(&id);
    assert!(e.ambient.fading_out.contains(&id));
    // a second stop during the fade is a no-op: the entry stays at its step
    e.on_stop_ambient(&id);
    assert!(e.ambient.fading_out.contains(&id));
    for _ in 0..4 {
        idle(&mut e);
    }
    assert!(!e.ambient.voices.contains(&id));
    assert!(!e.ambient.active.contains(&id));
    assert!(!e.ambient.fading_out.contains(&id));
    assert_eq!(e.get_active_ambients().len(), 0);
}

#[test]
fn replaying_an_id_cancels_its_fade_out() {
    let mut e = Engine::new();
    let id = String::from("rain");
    e.on_play_ambient(
        &id,
        String::from("A.ogg"),
        String::from("B.ogg"),
        rain_settings(),
        true,
    );
    e.on_stop_ambient(&id);
    assert!(e.ambient.fading_out.contains(&id));
    e.on_play_ambient(
        &id,
        String::from("A.ogg"),
        String::from("B.ogg"),
        rain_settings(),
        true,
    );
    assert!(!e.ambient.fading_out.contains(&id));
    assert!(e.ambient.voices.contains(&id));
    for _ in 0..8 {
        idle(&mut e);
    }
    // the cancelled fade never kills the replacement voice
    assert!(e.ambient.voices.contains(&id));
}

#[test]
fn volume_only_update_transitions_smoothly_without_rebuild() {
    let mut e = Engine::new();
    let id = String::from("rain");
    e.on_play_ambient(
        &id,
        String::from("A.ogg"),
        String::from("B.ogg"),
        rain_settings(),
        true,
    );
    for _ in 0..4 {
        idle(&mut e);
    }
    assert_eq!(e.ambient.voices.get(&id).unwrap().sink.volume, 500);
    let mut lower = rain_settings();
    lower.volume = 300;
    let req = e.on_update_ambient_settings(&id, lower, false);
    assert!(req.is_none());
    assert!(e.ambient.transitions.contains(&id));
    // the gain walks 500 -> 420 -> 340 -> 300, then the entry snaps away
    idle(&mut e);
    assert_eq!(e.ambient.voices.get(&id).unwrap().sink.volume, 420);
    idle(&mut e);
    assert_eq!(e.ambient.voices.get(&id).unwrap().sink.volume, 340);
    idle(&mut e);
    assert_eq!(e.ambient.voices.get(&id).unwrap().sink.volume, 300);
    idle(&mut e);
    assert_eq!(e.ambient.voices.get(&id).unwrap().sink.volume, 300);
    assert!(!e.ambient.transitions.contains(&id));
}

#[test]
fn pitch_update_rebuilds_the_chain_from_the_current_phase() {
    let mut e = Engine::new();
    let id = String::from("rain");
    e.on_preload_ambient(&vec![String::from("A.ogg")]);
    e.on_play_ambient(
        &id,
        String::from("A.ogg"),
        String::from("B.ogg"),
        rain_settings(),
        true,
    );
    for _ in 0..4 {
        idle(&mut e);
    }
    let mut faster = rain_settings();
    faster.pitch = 1500;
    let req = e.on_update_ambient_settings(&id, faster, false).unwrap();
    assert_eq!(req.id, "rain");
    assert_eq!(req.chain.pitch, 1500);
    assert_eq!(req.path, "A.ogg");
    assert!(req.from_cache);
    let v = e.ambient.voices.get(&id).unwrap();
    assert_eq!(v.settings.pitch, 1500);
    assert_eq!(v.sink.volume, 500);
    assert!(!v.sink.empty);
}

#[test]
fn music_fade_in_and_fade_out_follow_the_crossfade_window() {
    let mut e = Engine::new();
    assert_eq!(e.music.crossfade_ms, 3000);
    e.on_play(String::from("t1.mp3"), track_info("t1"), Some(10000));
    assert_eq!(e.music.sink.unwrap().volume, 0);
    // half a second in, the fade-in sits at about a sixth of the gain
    for _ in 0..10 {
        e.music_fade_in_step();
    }
    assert_eq!(e.music.sink.unwrap().volume, 166);
    // jump near the end: the fade-out window scales the gain to a half
    e.music.fade_in = None;
    e.music.track_elapsed_ms = 8500;
    e.music_fade_out_step();
    assert!(e.music.fade_out_active);
    assert_eq!(e.music.sink.unwrap().volume, 500);
}

#[test]
fn finished_track_advances_through_the_playlist() {
    let mut e = Engine::new();
    let t = soundscapes::types::PlaylistTrack {
        id: String::from("t2"),
        file: String::from("t2.mp3"),
        title: String::from("Second"),
        artist: String::from("Artist"),
        album: String::from("Album"),
        album_path: String::from("/music/Album"),
    };
    e.set_all_tracks(vec![t]);
    e.set_current_playlist(Some(String::from("all-music")));
    e.set_playlist_index(-1);
    e.on_play(String::from("t1.mp3"), track_info("t1"), Some(100));
    // one playing tick, then the sink drains
    e.progress_and_advance_step();
    e.observe(true, true, &Vec::new());
    e.progress_and_advance_step();
    assert!(e.music.pending_auto_advance.is_some());
    assert_eq!(
        e.pending_auto_advance_path().unwrap(),
        "/music/Album/t2.mp3"
    );
    e.run_pending_auto_advance(Some(5000));
    assert!(e.music.pending_auto_advance.is_none());
    let track = e.get_current_track().unwrap();
    assert_eq!(track.id, "t2");
    assert!(e.get_progress().is_playing);
}

#[test]
fn soundboard_ducks_music_and_releases_when_done() {
    let mut e = Engine::new();
    e.on_set_crossfade_duration(0);
    e.on_play(String::from("t1.mp3"), track_info("t1"), Some(60000));
    assert_eq!(e.music.sink.unwrap().volume, 1000);
    e.on_set_duck_amount(500);
    e.on_play_soundboard(1000, true);
    assert_eq!(e.duck.duck_target, 1000);
    // seven ticks at 150 per tick reach full attenuation depth
    for _ in 0..7 {
        e.duck_step();
    }
    assert_eq!(e.duck.duck_progress, 1000);
    assert_eq!(e.music.sink.unwrap().volume, 500);
    // the clip drains: ducking releases over the following ticks
    e.observe(false, true, &Vec::new());
    e.soundboard_end_check();
    assert!(e.duck.soundboard_sink.is_none());
    assert_eq!(e.duck.duck_target, 0);
    for _ in 0..7 {
        e.duck_step();
    }
    assert_eq!(e.duck.duck_progress, 0);
    assert!(e.music.sink.unwrap().volume >= 925);
}

#[test]
fn setting_the_volume_twice_equals_setting_it_once() {
    let mut e1 = Engine::new();
    e1.on_set_crossfade_duration(0);
    e1.on_play(String::from("t1.mp3"), track_info("t1"), Some(60000));
    let mut e2 = Engine::new();
    e2.on_set_crossfade_duration(0);
    e2.on_play(String::from("t1.mp3"), track_info("t1"), Some(60000));
    e1.on_set_volume(700);
    e2.on_set_volume(700);
    e2.on_set_volume(700);
    assert_eq!(e1.masters.music_volume, e2.masters.music_volume);
    assert_eq!(e1.music.sink.unwrap().volume, e2.music.sink.unwrap().volume);
    assert_eq!(e1.music.sink.unwrap().volume, 700);
}

#[test]
fn pause_then_resume_leaves_the_voice_as_before() {
    let mut e = Engine::new();
    e.on_set_crossfade_duration(0);
    e.on_play(String::from("t1.mp3"), track_info("t1"), Some(60000));
    let before = e.music.sink.unwrap();
    e.on_pause();
    assert!(e.music.sink.unwrap().paused);
    e.on_resume();
    assert_eq!(e.music.sink.unwrap(), before);
    assert_eq!(e.music.track_elapsed_ms, 0);
}

#[test]
fn seek_restarts_at_the_clamped_position() {
    let mut e = Engine::new();
    e.on_play(String::from("t1.mp3"), track_info("t1"), Some(10000));
    e.on_seek(4000, Some(10000));
    assert_eq!(e.music.track_elapsed_ms, 4000);
    assert_eq!(e.get_progress().current_time_ms, 4000);
    e.on_seek(25000, Some(10000));
    assert_eq!(e.music.track_elapsed_ms, 10000);
    // seeking with nothing loaded is a no-op
    let mut quiet = Engine::new();
    quiet.on_seek(4000, Some(10000));
    assert!(quiet.music.sink.is_none());
}

#[test]
fn ambient_mute_silences_every_voice_at_once() {
    let mut e = Engine::new();
    let id = String::from("rain");
    e.on_play_ambient(
        &id,
        String::from("A.ogg"),
        String::from("B.ogg"),
        rain_settings(),
        true,
    );
    for _ in 0..4 {
        idle(&mut e);
    }
    e.on_set_ambient_muted(true);
    assert_eq!(e.ambient.voices.get(&id).unwrap().sink.volume, 0);
    e.on_set_ambient_muted(false);
    assert_eq!(e.ambient.voices.get(&id).unwrap().sink.volume, 500);
    e.on_set_ambient_master_volume(400);
    assert_eq!(e.ambient.voices.get(&id).unwrap().sink.volume, 200);
}

#[test]
fn visualization_silences_ambient_bins_without_audible_voices() {
    let mut e = Engine::new();
    let music_bins: Vec<u32> = (0u32..64).collect();
    let ambient_bins: Vec<u32> = (100u32..164).collect();
    e.visualization_step(&music_bins, &ambient_bins);
    assert_eq!(e.snap.playback.frequencies, music_bins);
    assert_eq!(e.snap.playback.ambient_frequencies, vec![0u32; 64]);
    assert_eq!(e.snap.playback.ambient_count, 0);
    // an audible voice lets the ambient spectrum through
    let id = String::from("rain");
    e.on_play_ambient(
        &id,
        String::from("A.ogg"),
        String::from("B.ogg"),
        rain_settings(),
        true,
    );
    e.visualization_step(&music_bins, &ambient_bins);
    assert_eq!(e.snap.playback.ambient_frequencies, ambient_bins);
    assert_eq!(e.snap.playback.ambient_count, 1);
}

#[test]
fn scheduler_runs_a_one_item_rotation() {
    let mut e = Engine::new();
    let item = soundscapes::types::ScheduledItem {
        id: String::from("i1"),
        preset_id: String::from("evening"),
        preset_name: String::from("Evening"),
        min_minutes: 1,
        max_minutes: 1,
        order: 0,
    };
    assert!(e.start_scheduler_playback(vec![item], Some(String::from("sched"))).is_ok());
    assert_eq!(e.sched.state.current_duration, 1);
    assert_eq!(e.sched.state.time_remaining, 60);
    // the first scheduler second loads the current item's preset
    let mut load = None;
    for _ in 0..20 {
        load = e.scheduler_second_tick();
    }
    assert_eq!(load.as_deref(), Some("evening"));
    assert_eq!(e.sched.state.time_remaining, 59);
    e.stop_scheduler_playback();
    assert!(!e.sched.state.is_playing);
    // an empty schedule is rejected
    assert!(e.start_scheduler_playback(Vec::new(), None).is_err());
}

#[test]
fn scheduler_preset_diff_emits_the_three_command_kinds() {
    let mut e = Engine::new();
    let id = String::from("wind");
    e.on_play_ambient(
        &id,
        String::from("W1.ogg"),
        String::from("W2.ogg"),
        rain_settings(),
        true,
    );
    let sound = soundscapes::settings::PresetSound {
        category_id: String::from("nature"),
        category_path: String::from("/ambient/nature"),
        sound_id: String::from("rain"),
        name: String::from("Rain"),
        files_a: String::from("A.ogg"),
        files_b: String::from("B.ogg"),
        enabled: true,
        volume: 500,
        pitch: 1000,
        pan: 0,
        low_pass_freq: 22000,
        algorithmic_reverb: 0,
        repeat_range_min: 1,
        repeat_range_max: 1,
        pause_range_min: 0,
        pause_range_max: 0,
        volume_variation: 0,
    };
    let cmds = e.apply_scheduler_preset(&vec![sound]);
    assert_eq!(cmds.len(), 2);
    let mut saw_stop = false;
    let mut saw_play = false;
    for c in &cmds {
        match c {
            AudioCommand::StopAmbientScheduler(stopped) => {
                assert_eq!(stopped, "wind");
                saw_stop = true;
            }
            AudioCommand::PlayAmbientScheduler { id, settings, .. } => {
                assert_eq!(id, "rain");
                assert_eq!(settings.volume, 500);
                saw_play = true;
            }
            _ => panic!("unexpected command kind"),
        }
    }
    assert!(saw_stop && saw_play);
}

#[test]
fn playlist_bookkeeping_round_trips() {
    let mut e = Engine::new();
    assert!(e.save_playlist(&String::from("all-music"), String::from("x"), Vec::new()).is_err());
    assert!(e.save_playlist(&String::from("mine"), String::from("Mine"), Vec::new()).is_ok());
    assert_eq!(e.get_playlists().len(), 1);
    assert!(e.delete_playlist(&String::from("favorites")).is_err());
    assert!(e.delete_playlist(&String::from("mine")).is_ok());
    assert_eq!(e.get_playlists().len(), 0);
    assert!(e.toggle_favorite(&String::from("t1")));
    assert!(!e.toggle_favorite(&String::from("t1")));
    assert!(e.get_playlist_state().favorites.is_empty());
}

#[test]
fn full_tick_composes_without_commands() {
    let mut e = Engine::new();
    let id = String::from("rain");
    e.on_play_ambient(
        &id,
        String::from("A.ogg"),
        String::from("B.ogg"),
        rain_settings(),
        true,
    );
    let music_bins = vec![0u32; 64];
    let ambient_bins = vec![0u32; 64];
    for _ in 0..5 {
        let outcome = e.tick(true, true, &Vec::new(), None, &music_bins, &ambient_bins, true);
        assert!(outcome.load_preset.is_none());
    }
    assert!(e.ambient.voices.contains(&id));
    assert_eq!(e.ambient.voices.get(&id).unwrap().sink.volume, 500);
}

#[test]
fn failed_play_leaves_playback_untouched() {
    let mut e = Engine::new();
    e.on_set_crossfade_duration(0);
    e.on_play(String::from("t1.mp3"), track_info("t1"), Some(60000));
    let sink_before = e.music.sink.unwrap();
    // a play whose decode failed is a no-op: the old track keeps playing
    e.on_play(String::from("missing.mp3"), track_info("t9"), None);
    assert_eq!(e.music.sink.unwrap(), sink_before);
    assert_eq!(e.get_current_track().unwrap().id, "t1");
    assert!(e.get_progress().is_playing);
}

#[test]
fn failed_ambient_play_leaves_the_voice_untouched() {
    let mut e = Engine::new();
    let id = String::from("rain");
    e.on_play_ambient(
        &id,
        String::from("A.ogg"),
        String::from("B.ogg"),
        rain_settings(),
        true,
    );
    for _ in 0..4 {
        idle(&mut e);
    }
    let vol_before = e.ambient.voices.get(&id).unwrap().sink.volume;
    e.on_play_ambient(
        &id,
        String::from("A.ogg"),
        String::from("B.ogg"),
        rain_settings(),
        false,
    );
    assert!(e.ambient.voices.contains(&id));
    assert_eq!(e.ambient.voices.get(&id).unwrap().sink.volume, vol_before);
    assert!(e.ambient.active.contains(&id));
}

#[test]
fn scheduler_stop_does_not_cancel_the_user_fade() {
    let mut e = Engine::new();
    let id = String::from("rain");
    e.on_play_ambient(
        &id,
        String::from("A.ogg"),
        String::from("B.ogg"),
        rain_settings(),
        true,
    );
    e.on_stop_ambient(&id);
    assert!(e.ambient.fading_out.contains(&id));
    // the two cadences are tracked independently
    e.on_stop_ambient_scheduler(&id);
    assert!(e.ambient.fading_out.contains(&id));
    assert!(e.ambient.s_fading_out.contains(&id));
}

#[test]
fn rebuild_discards_the_in_flight_volume_transition() {
    let mut e = Engine::new();
    let id = String::from("rain");
    e.on_play_ambient(
        &id,
        String::from("A.ogg"),
        String::from("B.ogg"),
        rain_settings(),
        true,
    );
    for _ in 0..4 {
        idle(&mut e);
    }
    // record a slow move toward a lower gain, then change the pitch
    let mut lower = rain_settings();
    lower.volume = 300;
    assert!(e.on_update_ambient_settings(&id, lower, false).is_none());
    assert!(e.ambient.transitions.contains(&id));
    let mut faster = rain_settings();
    faster.pitch = 1500;
    assert!(e.on_update_ambient_settings(&id, faster, false).is_some());
    // the rebuild dropped the stale transition: later ticks leave the
    // freshly set gain alone instead of dragging it toward 300
    assert!(!e.ambient.transitions.contains(&id));
    for _ in 0..6 {
        idle(&mut e);
    }
    assert_eq!(e.ambient.voices.get(&id).unwrap().sink.volume, 500);
}
