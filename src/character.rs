//! Turning an imported character card into the character record.
use vstd::prelude::*;

use crate::types::CharacterInformation;

verus! {

/// A character node of a character-hub listing.
#[derive(Debug, Clone, Default)]
pub struct ChubAiChracterNode {
    pub id: i64,
    pub name: String,
    pub description: String,
    pub topics: Vec<String>,
    pub n_tokens: i64,
    pub tagline: String,
    pub definition: ChubAiDefinition,
    pub permissions: String,
}

/// The definition of a character-hub character.
#[derive(Debug, Clone, Default)]
pub struct ChubAiDefinition {
    pub id: i64,
    pub avatar: String,
    pub name: String,
    pub description: String,
    pub example_dialogs: String,
    pub first_message: String,
    pub personality: String,
    pub scenario: String,
    pub system_prompt: String,
    pub post_history_instructions: String,
    pub tavern_personality: String,
    pub alternate_greetings: Vec<String>,
}

/// A character card as embedded in a PNG file.
#[derive(Debug, Clone)]
pub struct CharacterCard {
    pub spec: String,
    pub spec_version: String,
    pub data: CharacterCardData,
}

#[derive(Debug, Clone)]
pub struct CharacterCardData {
    pub alternate_greetings: Vec<String>,
    pub avatar: Option<String>,
    pub character_version: String,
    pub creator: String,
    pub creator_notes: String,
    pub description: String,
    pub first_message: String,
    pub message_example: String,
    pub name: String,
    pub personality: String,
    pub post_history_instructions: Option<String>,
    pub scenario: String,
    pub system_prompt: String,
    pub tags: Vec<String>,
}

/// The characters with the Unicode `White_Space` property.
pub open spec fn is_white(c: char) -> bool {
    let u = c as u32;
    ||| 0x09 <= u <= 0x0D
    ||| u == 0x20
    ||| u == 0x85
    ||| u == 0xA0
    ||| u == 0x1680
    ||| 0x2000 <= u <= 0x200A
    ||| u == 0x2028
    ||| u == 0x2029
    ||| u == 0x202F
    ||| u == 0x205F
    ||| u == 0x3000
}

/// A text made of white space only (the empty text included).
pub open spec fn is_blank(s: Seq<char>) -> bool {
    forall|i: int| 0 <= i < s.len() ==> is_white(#[trigger] s[i])
}

fn is_white_char(c: char) -> (b: bool)
    ensures
        b == is_white(c),
{
    let u = c as u32;
    (0x09 <= u && u <= 0x0D) || u == 0x20 || u == 0x85 || u == 0xA0 || u == 0x1680 || (0x2000 <= u
        && u <= 0x200A) || u == 0x2028 || u == 0x2029 || u == 0x202F || u == 0x205F || u == 0x3000
}

/// Whether a text is made of white space only.
pub fn is_blank_text(s: &str) -> (b: bool)
    ensures
        b == is_blank(s@),
{
    let mut blank = true;
    for c in it: s.chars()
        invariant
            blank == (forall|i: int| 0 <= i < it.index() ==> is_white(#[trigger] it.seq()[i])),
    {
        if !is_white_char(c) {
            blank = false;
        }
    }
    blank
}

/// The system prompt used where a card leaves it blank.
pub open spec fn default_system_prompt_text() -> Seq<char> {
    "Write {{char}}'s next reply in a fictional chat between {{char}} and {{user}}."@
}

/// The system prompt used where a card leaves it blank.
pub fn default_system_prompt() -> (r: String)
    ensures
        r@ == default_system_prompt_text(),
{
    "Write {{char}}'s next reply in a fictional chat between {{char}} and {{user}}.".to_owned()
}

/// A card's system prompt, or the default where it is blank.
pub open spec fn effective_system_prompt(given: Seq<char>) -> Seq<char> {
    if is_blank(given) {
        default_system_prompt_text()
    } else {
        given
    }
}

fn system_prompt_or_default(given: String) -> (r: String)
    ensures
        r@ == effective_system_prompt(given@),
{
    if is_blank_text(given.as_str()) {
        default_system_prompt()
    } else {
        given
    }
}

/// The greeting first, then the alternates in order.
fn greetings(first: String, alternates: Vec<String>) -> (r: Vec<String>)
    ensures
        r@ == seq![first] + alternates@,
{
    let mut all: Vec<String> = Vec::new();
    all.push(first);
    let mut rest = alternates;
    all.append(&mut rest);
    all
}

/// `info` describes the character a card defines.
pub open spec fn card_information(
    info: CharacterInformation,
    name: String,
    description: String,
    personality: String,
    first_message: String,
    alternate_greetings: Seq<String>,
    tags: Seq<String>,
    system_prompt: Seq<char>,
) -> bool {
    &&& info.name == name
    &&& info.description == description
    &&& info.personality == personality
    &&& info.first_messages@ == seq![first_message] + alternate_greetings
    &&& info.tags@ == tags
    &&& info.system_prompt@ == effective_system_prompt(system_prompt)
}

impl CharacterCard {
    /// The character a PNG card defines, with the re-encoded image.
    pub fn into_information(self, image_base64: String) -> (r: CharacterInformation)
        ensures
            card_information(
                r,
                self.data.name,
                self.data.description,
                self.data.personality,
                self.data.first_message,
                self.data.alternate_greetings@,
                self.data.tags@,
                self.data.system_prompt@,
            ),
            r.avatar == self.data.avatar,
            r.image_base64 == Some(image_base64),
    {
        let data = self.data;
        CharacterInformation {
            name: data.name,
            description: data.description,
            personality: data.personality,
            first_messages: greetings(data.first_message, data.alternate_greetings),
            tags: data.tags,
            system_prompt: system_prompt_or_default(data.system_prompt),
            avatar: data.avatar,
            image_base64: Some(image_base64),
        }
    }
}

impl ChubAiChracterNode {
    /// The character a character-hub listing defines, with the downloaded
    /// avatar image.
    pub fn into_information(self, image_base64: String) -> (r: CharacterInformation)
        ensures
            card_information(
                r,
                self.definition.name,
                self.definition.description,
                self.definition.personality,
                self.definition.first_message,
                self.definition.alternate_greetings@,
                self.topics@,
                self.definition.system_prompt@,
            ),
            r.avatar == Some(self.definition.avatar),
            r.image_base64 == Some(image_base64),
    {
        let definition = self.definition;
        CharacterInformation {
            name: definition.name,
            description: definition.description,
            personality: definition.personality,
            first_messages: greetings(definition.first_message, definition.alternate_greetings),
            tags: self.topics,
            system_prompt: system_prompt_or_default(definition.system_prompt),
            avatar: Some(definition.avatar),
            image_base64: Some(image_base64),
        }
    }
}

} // verus!
