//! Building the records that persistence stores: presets, schedules, the
//! settings file's volume fields, and soundboard metadata edits. The
//! caller owns the files; everything here works on plain values.
use vstd::prelude::*;
use crate::settings::{PresetSound, SoundscapePreset};
use crate::types::{
    PresetInfo, SchedulePreset, SchedulePresetInfo, ScheduledItem, SoundboardSound,
};

verus! {

/// Whether a character counts as a letter or digit for id purposes.
/// Named for `char::is_alphanumeric`, whose Unicode tables decide it.
pub uninterp spec fn is_alnum_char(c: char) -> bool;

/// Relies on `char::is_alphanumeric`: the result depends on the character
/// alone, by the Unicode tables compiled into the standard library.
#[verifier::external_body]
fn char_is_alphanumeric(c: char) -> (r: bool)
    ensures
        r == is_alnum_char(c),
{
    c.is_alphanumeric()
}

/// Relies on `String::push`: appends exactly the one character.
#[verifier::external_body]
fn push_char(s: &mut String, c: char)
    ensures
        final(s)@ == old(s)@.push(c),
{
    s.push(c);
}

/// Relies on `chrono::Utc::now().to_rfc3339()`: the current moment,
/// formatted. The clock decides the value, so nothing is assumed of it.
#[verifier::external_body]
pub fn now_rfc3339() -> String {
    chrono::Utc::now().to_rfc3339()
}

/// The character a name's character contributes to an id: letters,
/// digits, dashes and underscores are kept, ASCII capitals lowered,
/// anything else becomes a dash.
pub open spec fn id_char(c: char) -> char {
    if is_alnum_char(c) || c == '-' || c == '_' {
        if 'A' <= c <= 'Z' {
            ((c as u32) + 32) as char
        } else {
            c
        }
    } else {
        '-'
    }
}

/// A name mapped character by character into id characters.
pub open spec fn id_chars(name: Seq<char>) -> Seq<char> {
    name.map_values(|c: char| id_char(c))
}

/// The id a preset or schedule name produces: every character mapped to
/// its id character, then dashes trimmed from both ends.
pub open spec fn sanitized_id(name: Seq<char>) -> Seq<char> {
    trim_dashes(id_chars(name))
}

/// `s` without leading and trailing dashes.
pub open spec fn trim_dashes(s: Seq<char>) -> Seq<char> {
    let start = first_non_dash(s, 0);
    let end = last_non_dash(s);
    if start <= end {
        s.subrange(start, end + 1)
    } else {
        Seq::empty()
    }
}

/// Position of the first non-dash character at or after `from`, or the
/// length when none is.
pub open spec fn first_non_dash(s: Seq<char>, from: int) -> int
    decreases s.len() - from,
{
    if from < 0 || from >= s.len() {
        s.len() as int
    } else if s[from] != '-' {
        from
    } else {
        first_non_dash(s, from + 1)
    }
}

/// Position of the last non-dash character, or `-1` when none is.
pub open spec fn last_non_dash(s: Seq<char>) -> int
    decreases s.len(),
{
    if s.len() == 0 {
        -1
    } else if s[s.len() - 1] != '-' {
        s.len() - 1
    } else {
        last_non_dash(s.drop_last())
    }
}

/// Map a stored name to the id its file is named by: letters, digits,
/// dashes and underscores kept (capitals lowered to their ASCII
/// counterparts), everything else replaced by a dash, and dashes trimmed
/// from both ends.
pub fn sanitize_id(name: &String) -> (r: String)
    ensures
        r@ == sanitized_id(name@),
{
    let n = name.as_str().unicode_len();
    let mut mapped = String::new();
    let mut i: usize = 0;
    while i < n
        invariant
            n == name@.len(),
            i <= n,
            mapped@.len() == i,
            forall|k: int| 0 <= k < i ==> mapped@[k] == id_char(name@[k]),
        decreases n - i,
    {
        let c = name.as_str().get_char(i);
        let mapped_c: char = if char_is_alphanumeric(c) || c == '-' || c == '_' {
            if 'A' <= c && c <= 'Z' {
                let code = (c as u32) + 32;
                proof {
                    assert(code < 0x11_0000);
                }
                char_from_u32(code)
            } else {
                c
            }
        } else {
            '-'
        };
        push_char(&mut mapped, mapped_c);
        i += 1;
    }
    proof {
        assert(mapped@ =~= id_chars(name@));
    }
    let len = mapped.as_str().unicode_len();
    let mut start: usize = 0;
    while start < len && mapped.as_str().get_char(start) == '-'
        invariant
            len == mapped@.len(),
            start <= len,
            forall|k: int| 0 <= k < start ==> mapped@[k] == '-',
            first_non_dash(mapped@, 0) == first_non_dash(mapped@, start as int),
        decreases len - start,
    {
        proof {
            assert(first_non_dash(mapped@, start as int) == first_non_dash(
                mapped@,
                start as int + 1,
            ));
        }
        start += 1;
    }
    proof {
        if start < len {
            assert(first_non_dash(mapped@, start as int) == start as int);
        } else {
            assert(first_non_dash(mapped@, start as int) == len as int);
        }
    }
    let mut end: usize = len;
    while end > start && mapped.as_str().get_char(end - 1) == '-'
        invariant
            len == mapped@.len(),
            start <= end <= len,
            forall|k: int| end <= k < len ==> mapped@[k] == '-',
            forall|k: int| 0 <= k < start ==> mapped@[k] == '-',
            first_non_dash(mapped@, 0) == (if start < len {
                start as int
            } else {
                len as int
            }),
        decreases end,
    {
        end -= 1;
    }
    let mut r = String::new();
    let mut i: usize = start;
    while i < end
        invariant
            len == mapped@.len(),
            start <= i <= end <= len,
            r@.len() == i - start,
            forall|k: int| start <= k < i ==> r@[k - start] == mapped@[k],
        decreases end - i,
    {
        push_char(&mut r, mapped.as_str().get_char(i));
        i += 1;
    }
    proof {
        lemma_trim_matches(mapped@, start as int, end as int);
        assert(r@ =~= trim_dashes(mapped@));
    }
    r
}

/// When `start` is the first non-dash position (or the length) and `end`
/// sits one past the last non-dash position at or after `start`, the
/// middle slice is the dash-trimmed sequence.
proof fn lemma_trim_matches(s: Seq<char>, start: int, end: int)
    requires
        0 <= start <= end <= s.len(),
        forall|k: int| 0 <= k < start ==> s[k] == '-',
        forall|k: int| end <= k < s.len() ==> s[k] == '-',
        start < s.len() ==> first_non_dash(s, 0) == start,
        start >= s.len() ==> first_non_dash(s, 0) == s.len(),
        end > start ==> s[end - 1] != '-',
        start < s.len() && start < end ==> s[start] != '-',
        end == start ==> start >= s.len() || s.subrange(start, s.len() as int) =~= Seq::new(
            (s.len() - start) as nat,
            |k: int| '-',
        ),
    ensures
        trim_dashes(s) =~= s.subrange(start, end),
{
    if end > start {
        lemma_last_non_dash_at(s, end - 1);
    } else {
        lemma_all_dashes(s);
    }
}

/// When everything from `p + 1` on is a dash and `s[p]` is not, `p` is
/// the last non-dash position.
proof fn lemma_last_non_dash_at(s: Seq<char>, p: int)
    requires
        0 <= p < s.len(),
        s[p] != '-',
        forall|k: int| p < k < s.len() ==> s[k] == '-',
    ensures
        last_non_dash(s) == p,
    decreases s.len(),
{
    if s.len() - 1 == p {
    } else {
        assert(s[s.len() - 1] == '-');
        assert(s.drop_last() =~= s.subrange(0, s.len() - 1));
        lemma_last_non_dash_at(s.drop_last(), p);
    }
}

/// In a sequence of dashes alone, there is no last non-dash position.
proof fn lemma_all_dashes(s: Seq<char>)
    requires
        forall|k: int| 0 <= k < s.len() ==> s[k] == '-',
    ensures
        last_non_dash(s) == -1,
    decreases s.len(),
{
    if s.len() > 0 {
        lemma_all_dashes(s.drop_last());
    }
}

/// Relies on `char::from_u32` returning the character of a valid code
/// point: the input is below the code point ceiling and is produced by
/// adding thirty-two to an ASCII capital, which never lands on a
/// surrogate, so the conversion succeeds and is the identity on codes.
#[verifier::external_body]
fn char_from_u32(code: u32) -> (r: char)
    requires
        code < 0x11_0000,
        !(0xD800 <= code < 0xE000),
    ensures
        r as u32 == code,
{
    match char::from_u32(code) {
        Some(c) => c,
        None => '-',
    }
}

/// The preset record a save produces: the sanitized name becomes the id
/// unless an existing record already carries one, creation time is kept
/// from any existing record, and the modification time is the given
/// moment.
pub fn build_preset(
    name: &String,
    sounds: Vec<PresetSound>,
    now: String,
    existing: Option<SoundscapePreset>,
) -> (r: SoundscapePreset)
    ensures
        r.name@ == name@,
        r.modified@ == now@,
        r.sounds@ == sounds@,
        match existing {
            Some(e) => r.id@ == e.id@ && r.created@ == e.created@,
            None => r.id@ == sanitized_id(name@) && r.created@ == now@,
        },
{
    let (id, created) = match existing {
        Some(e) => (e.id, e.created),
        None => (sanitize_id(name), now.clone()),
    };
    SoundscapePreset { id, name: name.clone(), created, modified: now, sounds }
}

/// The summary of a preset record.
pub fn preset_info(p: &SoundscapePreset) -> (r: PresetInfo)
    ensures
        r.id@ == p.id@,
        r.name@ == p.name@,
        r.created@ == p.created@,
        r.modified@ == p.modified@,
        r.sound_count == p.sounds@.len(),
{
    PresetInfo {
        id: p.id.clone(),
        name: p.name.clone(),
        created: p.created.clone(),
        modified: p.modified.clone(),
        sound_count: p.sounds.len(),
    }
}

/// The schedule record a save produces, shaped as the preset's is.
pub fn build_schedule(
    name: &String,
    items: Vec<ScheduledItem>,
    now: String,
    existing: Option<SchedulePreset>,
) -> (r: SchedulePreset)
    ensures
        r.name@ == name@,
        r.modified@ == now@,
        r.items@ == items@,
        match existing {
            Some(e) => r.id@ == e.id@ && r.created@ == e.created@,
            None => r.id@ == sanitized_id(name@) && r.created@ == now@,
        },
{
    let (id, created) = match existing {
        Some(e) => (e.id, e.created),
        None => (sanitize_id(name), now.clone()),
    };
    SchedulePreset { id, name: name.clone(), created, modified: now, items }
}

/// The summary of a schedule record.
pub fn schedule_info(p: &SchedulePreset) -> (r: SchedulePresetInfo)
    ensures
        r.id@ == p.id@,
        r.name@ == p.name@,
        r.created@ == p.created@,
        r.modified@ == p.modified@,
        r.item_count == p.items@.len(),
{
    SchedulePresetInfo {
        id: p.id.clone(),
        name: p.name.clone(),
        created: p.created.clone(),
        modified: p.modified.clone(),
        item_count: p.items.len(),
    }
}

/// Update one volume field of the settings by its key name; an unknown
/// key is rejected with a message naming it.
pub fn apply_volume_setting(
    settings: &mut crate::types::AppSettings,
    key: &String,
    value: u32,
) -> (r: Result<(), String>)
    ensures
        r is Ok <==> (key@ == "master_volume"@ || key@ == "music_volume"@ || key@
            == "ambient_volume"@ || key@ == "soundboard_volume"@),
        key@ == "master_volume"@ ==> *final(settings) == (crate::types::AppSettings {
            master_volume: value,
            ..*old(settings)
        }),
        key@ == "music_volume"@ ==> *final(settings) == (crate::types::AppSettings {
            music_volume: value,
            ..*old(settings)
        }),
        key@ == "ambient_volume"@ ==> *final(settings) == (crate::types::AppSettings {
            ambient_volume: value,
            ..*old(settings)
        }),
        key@ == "soundboard_volume"@ ==> *final(settings) == (crate::types::AppSettings {
            soundboard_volume: value,
            ..*old(settings)
        }),
        r is Err ==> *final(settings) == *old(settings),
{
    proof {
        reveal_strlit("master_volume");
        reveal_strlit("music_volume");
        reveal_strlit("ambient_volume");
        reveal_strlit("soundboard_volume");
        assert("master_volume"@.len() == 13);
        assert("music_volume"@.len() == 12);
        assert("ambient_volume"@.len() == 14);
        assert("soundboard_volume"@.len() == 17);
        assert("master_volume"@ !== "music_volume"@);
        assert("master_volume"@ !== "ambient_volume"@);
        assert("master_volume"@ !== "soundboard_volume"@);
        assert("music_volume"@ !== "ambient_volume"@);
        assert("music_volume"@ !== "soundboard_volume"@);
        assert("ambient_volume"@ !== "soundboard_volume"@);
    }
    let master = String::from_str("master_volume");
    let music = String::from_str("music_volume");
    let ambient = String::from_str("ambient_volume");
    let soundboard = String::from_str("soundboard_volume");
    if *key == master {
        settings.master_volume = value;
        Ok(())
    } else if *key == music {
        settings.music_volume = value;
        Ok(())
    } else if *key == ambient {
        settings.ambient_volume = value;
        Ok(())
    } else if *key == soundboard {
        settings.soundboard_volume = value;
        Ok(())
    } else {
        Err(String::from_str("Unknown volume key").concat(": ").concat(key.as_str()))
    }
}

/// Update one soundboard clip's editable attributes in place: each given
/// field replaces the stored one, absent fields are left alone, and a
/// clip id that is not listed is rejected.
pub fn update_soundboard_metadata(
    sounds: &mut Vec<SoundboardSound>,
    sound_id: &String,
    name: Option<String>,
    hotkey: Option<String>,
    color: Option<String>,
    volume: Option<u32>,
) -> (r: Result<(), String>)
    ensures
        r is Ok <==> (exists|k: int|
            0 <= k < old(sounds)@.len() && old(sounds)@[k].id@ == sound_id@),
        r is Err ==> final(sounds)@ == old(sounds)@,
        r is Ok ==> {
            &&& final(sounds)@.len() == old(sounds)@.len()
            &&& exists|k: int|
                {
                    &&& 0 <= k < old(sounds)@.len()
                    &&& old(sounds)@[k].id@ == sound_id@
                    &&& (forall|j: int|
                        0 <= j < old(sounds)@.len() && j != k ==> final(sounds)@[j] == old(sounds)@[j])
                    &&& (#[trigger] final(sounds)@[k]).id@ == old(sounds)@[k].id@
                    &&& final(sounds)@[k].file@ == old(sounds)@[k].file@
                    &&& (match name {
                        Some(n) => final(sounds)@[k].name@ == n@,
                        None => final(sounds)@[k].name@ == old(sounds)@[k].name@,
                    })
                    &&& (hotkey is Some ==> final(sounds)@[k].hotkey == hotkey)
                    &&& (hotkey is None ==> final(sounds)@[k].hotkey == old(sounds)@[k].hotkey)
                    &&& (match color {
                        Some(c) => final(sounds)@[k].color is Some && final(sounds)@[k].color->0@ == c@,
                        None => final(sounds)@[k].color == old(sounds)@[k].color,
                    })
                    &&& (match volume {
                        Some(v) => final(sounds)@[k].volume == Some(v),
                        None => final(sounds)@[k].volume == old(sounds)@[k].volume,
                    })
                }
        },
{
    let n = sounds.len();
    let mut i: usize = 0;
    while i < n
        invariant
            n == sounds@.len(),
            i <= n,
            sounds@ == old(sounds)@,
            forall|k: int| 0 <= k < i ==> sounds@[k].id@ !== sound_id@,
        decreases n - i,
    {
        if sounds[i].id == *sound_id {
            let slot = &mut sounds[i];
            match name {
                Some(new_name) => {
                    slot.name = new_name;
                },
                None => {},
            }
            if hotkey.is_some() {
                slot.hotkey = hotkey;
            }
            match color {
                Some(new_color) => {
                    slot.color = Some(new_color);
                },
                None => {},
            }
            match volume {
                Some(new_volume) => {
                    slot.volume = Some(new_volume);
                },
                None => {},
            }
            return Ok(());
        }
        i += 1;
    }
    Err(
        String::from_str("Sound with id ").concat(sound_id.as_str()).concat(
            " not found",
        ),
    )
}

} // verus!
