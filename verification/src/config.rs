//! Settings decisions: what a fresh installation's configuration holds,
//! whether this is a first run, and which sound file a notification cue
//! resolves to. The settings store itself is an external collaborator; it
//! hands these functions plain values and persists what they return.

use vstd::prelude::*;
use vstd::string::StringExecFns;

verus! {

/// One settings value.
pub enum ConfigValue {
    Flag(bool),
    Number(i64),
    Text(String),
}

/// A first run is one with an empty settings store.
pub fn is_first_run(entries: usize) -> (r: bool)
    ensures
        r == (entries == 0),
{
    entries == 0
}

/// The configuration a first run is seeded with: the default model, sound
/// effects on at full volume, and one tick for each notification cue.
pub fn create_default_config() -> (r: Vec<(String, ConfigValue)>)
    ensures
        r@.len() == 6,
        r@[0].0@ == "model"@ && (r@[0].1 matches ConfigValue::Text(v) && v@ == "base"@),
        r@[1].0@ == "sound-effects"@ && r@[1].1 is Flag && r@[1].1->Flag_0 == true,
        r@[2].0@ == "sound-volume"@ && r@[2].1 is Number && r@[2].1->Number_0 == 1,
        r@[3].0@ == "sound-start"@ && (r@[3].1 matches ConfigValue::Text(v) && v@ == "tick.mp3"@),
        r@[4].0@ == "sound-stop"@ && (r@[4].1 matches ConfigValue::Text(v) && v@ == "tick.mp3"@),
        r@[5].0@ == "sound-complete"@ && (r@[5].1 matches ConfigValue::Text(v) && v@
            == "tick.mp3"@),
{
    let mut out: Vec<(String, ConfigValue)> = Vec::new();
    out.push(("model".to_owned(), ConfigValue::Text("base".to_owned())));
    out.push(("sound-effects".to_owned(), ConfigValue::Flag(true)));
    out.push(("sound-volume".to_owned(), ConfigValue::Number(1)));
    out.push(("sound-start".to_owned(), ConfigValue::Text("tick.mp3".to_owned())));
    out.push(("sound-stop".to_owned(), ConfigValue::Text("tick.mp3".to_owned())));
    out.push(("sound-complete".to_owned(), ConfigValue::Text("tick.mp3".to_owned())));
    out
}

/// Decides whether a notification cue is played and which resource it
/// resolves to. `effects` is the stored "sound-effects" toggle, if any;
/// `cue_value` the stored sound name for the cue, if any. Nothing plays
/// when effects are off, when no sound is configured, or when it is set
/// to "none"; otherwise the file under the audio resource directory.
pub fn plan_sound(effects: Option<bool>, cue_value: Option<String>) -> (r: Option<String>)
    ensures
        effects == Some(false) ==> r is None,
        cue_value is None ==> r is None,
        effects != Some(false) ==> (match cue_value {
            None => r is None,
            Some(f) => {
                if f@ == "none"@ {
                    r is None
                } else {
                    r matches Some(p) && p@ == "resources/audio/"@ + f@
                }
            },
        }),
{
    if let Some(false) = effects {
        return None;
    }
    match cue_value {
        None => None,
        Some(f) => {
            if f == "none".to_owned() {
                None
            } else {
                let mut path: String = "resources/audio/".to_owned();
                path.append(f.as_str());
                Some(path)
            }
        },
    }
}

} // verus!
