use vstd::prelude::*;

verus! {

/// What the player typed, once recognised.
#[derive(Debug, Clone, Copy, PartialEq, Eq, Structural)]
pub enum InputEvent {
    Sleep,
    PlantCrop,
    WaterCrops,
    HarvestCrops,
    Status,
    BuySeed,
    Trade,
    Quit,
}

/// `s` without its leading and trailing whitespace.
pub uninterp spec fn trimmed(s: Seq<char>) -> Seq<char>;

/// `s` in lower case.
pub uninterp spec fn lowercased(s: Seq<char>) -> Seq<char>;

/// Relies on str::trim: the result depends on the characters alone.
#[verifier::external_body]
fn trim_whitespace(s: &str) -> (r: &str)
    ensures
        r@ == trimmed(s@),
{
    s.trim()
}

/// Relies on str::to_lowercase: the result depends on the characters alone.
#[verifier::external_body]
fn to_lower(s: &str) -> (r: String)
    ensures
        r@ == lowercased(s@),
{
    s.to_lowercase()
}

/// The command that a normalised word (trimmed, lower case) stands for.
pub open spec fn event_for_word(w: Seq<char>) -> Option<InputEvent> {
    if w == "sleep"@ || w == "s"@ {
        Some(InputEvent::Sleep)
    } else if w == "plant"@ || w == "p"@ {
        Some(InputEvent::PlantCrop)
    } else if w == "water"@ || w == "w"@ {
        Some(InputEvent::WaterCrops)
    } else if w == "harvest"@ || w == "h"@ {
        Some(InputEvent::HarvestCrops)
    } else if w == "status"@ || w == "i"@ {
        Some(InputEvent::Status)
    } else if w == "buy"@ || w == "b"@ {
        Some(InputEvent::BuySeed)
    } else if w == "trade"@ || w == "t"@ {
        Some(InputEvent::Trade)
    } else if w == "quit"@ || w == "q"@ {
        Some(InputEvent::Quit)
    } else {
        None
    }
}

fn is_word(w: &String, long: &str, short: &str) -> (r: bool)
    ensures
        r == (w@ == long@ || w@ == short@),
{
    let long = long.to_owned();
    let short = short.to_owned();
    *w == long || *w == short
}

impl InputEvent {
    /// Recognises a word that is already trimmed and in lower case.
    pub fn from_word(w: &String) -> (r: Option<InputEvent>)
        ensures
            r == event_for_word(w@),
    {
        if is_word(w, "sleep", "s") {
            Some(InputEvent::Sleep)
        } else if is_word(w, "plant", "p") {
            Some(InputEvent::PlantCrop)
        } else if is_word(w, "water", "w") {
            Some(InputEvent::WaterCrops)
        } else if is_word(w, "harvest", "h") {
            Some(InputEvent::HarvestCrops)
        } else if is_word(w, "status", "i") {
            Some(InputEvent::Status)
        } else if is_word(w, "buy", "b") {
            Some(InputEvent::BuySeed)
        } else if is_word(w, "trade", "t") {
            Some(InputEvent::Trade)
        } else if is_word(w, "quit", "q") {
            Some(InputEvent::Quit)
        } else {
            None
        }
    }

    /// Recognises a line of input, ignoring surrounding whitespace and case.
    pub fn from_str(input: &str) -> (r: Option<InputEvent>)
        ensures
            r == event_for_word(lowercased(trimmed(input@))),
    {
        let word = to_lower(trim_whitespace(input));
        InputEvent::from_word(&word)
    }
}

} // verus!
