//! The dialogue in which a seller decides, line by line, what to do about a
//! listing, and confirms the preview.
//!
//! The dialogue decides what an answer means and what is asked next; its
//! caller shows the questions and reads the lines.

use vstd::prelude::*;
use crate::decision::Decision;
use crate::shared::Platform;
use crate::text::{lowercase, parse_u16, parse_unsigned, same_text, to_lowercase};

verus! {

/// What the dialogue is waiting for.
#[derive(Clone, Copy, Debug, PartialEq, Eq, Structural)]
pub enum PromptState {
    /// One of the four actions.
    AwaitingChoice,
    /// The new price, after the seller chose to change the price.
    AwaitingPrice,
}

/// What was wrong with an answer.
#[derive(Clone, Copy, Debug, PartialEq, Eq, Structural)]
pub enum Complaint {
    InvalidOption,
    InvalidPrice,
}

/// What the dialogue does with an answer.
#[derive(Clone, Copy, Debug, PartialEq, Eq, Structural)]
pub enum PromptReply {
    /// The seller has decided.
    Decided(Decision),
    /// The dialogue goes on in `state`, after telling the seller what was
    /// wrong with the answer, if anything was.
    Ask { state: PromptState, complaint: Option<Complaint> },
}

impl PromptState {
    /// The question that is put to the seller in this state.
    pub fn question(&self) -> (text: &'static str)
        ensures
            *self == PromptState::AwaitingChoice ==> text@
                == "Do you want to [C]hange the order price, [R]emove the order, [D]o nothing, or [P]rivate the order?"@,
            *self == PromptState::AwaitingPrice ==> text@ == "Enter the new price:"@,
    {
        match self {
            PromptState::AwaitingChoice => {
                "Do you want to [C]hange the order price, [R]emove the order, [D]o nothing, or [P]rivate the order?"
            },
            PromptState::AwaitingPrice => "Enter the new price:",
        }
    }
}

impl Complaint {
    /// What the seller is told.
    pub fn message(&self) -> (text: &'static str)
        ensures
            *self == Complaint::InvalidOption ==> text@ == "Invalid option!"@,
            *self == Complaint::InvalidPrice ==> text@ == "Invalid number for price!"@,
    {
        match self {
            Complaint::InvalidOption => "Invalid option!",
            Complaint::InvalidPrice => "Invalid number for price!",
        }
    }
}

/// What a choice means, given in lower case: `c` asks for a new price, `r`
/// removes, `p` hides, `d` does nothing, and anything else is asked again.
pub open spec fn choice_reply(lowered: Seq<char>) -> PromptReply {
    if lowered == "c"@ {
        PromptReply::Ask { state: PromptState::AwaitingPrice, complaint: None }
    } else if lowered == "r"@ {
        PromptReply::Decided(Decision::RemoveOrder)
    } else if lowered == "p"@ {
        PromptReply::Decided(Decision::MakeOrderPrivate)
    } else if lowered == "d"@ {
        PromptReply::Decided(Decision::DoNothing)
    } else {
        PromptReply::Ask {
            state: PromptState::AwaitingChoice,
            complaint: Some(Complaint::InvalidOption),
        }
    }
}

/// What an answer to the question for the new price means: a whole number
/// of platinum that fits 16 bits changes the price to it, and anything else
/// is asked again.
pub open spec fn price_reply(line: Seq<char>) -> PromptReply {
    match parse_unsigned(line, u16::MAX as nat) {
        Some(price) => PromptReply::Decided(Decision::ChangePrice { new_price: price as u16 }),
        None => PromptReply::Ask {
            state: PromptState::AwaitingPrice,
            complaint: Some(Complaint::InvalidPrice),
        },
    }
}

/// What the answer `line` means in `state`. A choice counts in upper and in
/// lower case.
pub open spec fn prompt_reply(state: PromptState, line: Seq<char>) -> PromptReply {
    match state {
        PromptState::AwaitingChoice => choice_reply(lowercase(line)),
        PromptState::AwaitingPrice => price_reply(line),
    }
}

/// What the choice `lowered`, already in lower case, means.
pub fn reply_to_choice(lowered: &str) -> (reply: PromptReply)
    ensures
        reply == choice_reply(lowered@),
{
    if same_text(lowered, "c") {
        PromptReply::Ask { state: PromptState::AwaitingPrice, complaint: None }
    } else if same_text(lowered, "r") {
        PromptReply::Decided(Decision::RemoveOrder)
    } else if same_text(lowered, "p") {
        PromptReply::Decided(Decision::MakeOrderPrivate)
    } else if same_text(lowered, "d") {
        PromptReply::Decided(Decision::DoNothing)
    } else {
        PromptReply::Ask {
            state: PromptState::AwaitingChoice,
            complaint: Some(Complaint::InvalidOption),
        }
    }
}

/// What the answer `line` to the question for the new price means.
pub fn reply_to_price(line: &str) -> (reply: PromptReply)
    ensures
        reply == price_reply(line@),
{
    match parse_u16(line) {
        Some(new_price) => PromptReply::Decided(Decision::ChangePrice { new_price }),
        None => PromptReply::Ask {
            state: PromptState::AwaitingPrice,
            complaint: Some(Complaint::InvalidPrice),
        },
    }
}

/// One step of the dialogue: what the answer `line` means in `state`.
pub fn prompt_step(state: PromptState, line: &str) -> (reply: PromptReply)
    ensures
        reply == prompt_reply(state, line@),
{
    match state {
        PromptState::AwaitingChoice => {
            let lowered = to_lowercase(line);
            reply_to_choice(lowered.as_str())
        },
        PromptState::AwaitingPrice => reply_to_price(line),
    }
}

/// The platform that the name `lowered`, in lower case, stands for.
pub open spec fn platform_named(lowered: Seq<char>) -> Option<Platform> {
    if lowered == "pc"@ {
        Some(Platform::Pc)
    } else if lowered == "xbox"@ {
        Some(Platform::Xbox)
    } else if lowered == "ps4"@ {
        Some(Platform::Ps4)
    } else {
        None
    }
}

/// The question for the platform, when an account signs in.
pub fn platform_question() -> (text: &'static str)
    ensures
        text@ == "Platform (pc, xbox or ps4):"@,
{
    "Platform (pc, xbox or ps4):"
}

/// What the user is told about an answer that names no platform.
pub fn platform_complaint() -> (text: &'static str)
    ensures
        text@ == "Invalid platform!"@,
{
    "Invalid platform!"
}

/// The platform that `lowered`, a name in lower case, stands for.
pub fn read_platform(lowered: &str) -> (platform: Option<Platform>)
    ensures
        platform == platform_named(lowered@),
{
    if same_text(lowered, "pc") {
        Some(Platform::Pc)
    } else if same_text(lowered, "xbox") {
        Some(Platform::Xbox)
    } else if same_text(lowered, "ps4") {
        Some(Platform::Ps4)
    } else {
        None
    }
}

/// The platform that the answer `line` names, in upper or in lower case.
/// `None` means: ask again.
pub fn platform_step(line: &str) -> (platform: Option<Platform>)
    ensures
        platform == platform_named(lowercase(line@)),
{
    let lowered = to_lowercase(line);
    read_platform(lowered.as_str())
}

/// What an answer to "is this all right?" means, given in lower case: `y`
/// is yes, `n` is no, and anything else is no answer.
pub open spec fn confirmation_of(lowered: Seq<char>) -> Option<bool> {
    if lowered == "y"@ {
        Some(true)
    } else if lowered == "n"@ {
        Some(false)
    } else {
        None
    }
}

/// The question that follows the preview.
pub fn confirmation_question() -> (text: &'static str)
    ensures
        text@ == "Is this OK? (y/n)"@,
{
    "Is this OK? (y/n)"
}

/// What the answer `lowered`, already in lower case, says to the question
/// whether the preview is all right.
pub fn read_confirmation(lowered: &str) -> (answer: Option<bool>)
    ensures
        answer == confirmation_of(lowered@),
{
    if same_text(lowered, "y") {
        Some(true)
    } else if same_text(lowered, "n") {
        Some(false)
    } else {
        None
    }
}

/// What the answer `line` says to the question whether the preview is all
/// right, in upper or in lower case. `None` means: ask again.
pub fn confirmation_step(line: &str) -> (answer: Option<bool>)
    ensures
        answer == confirmation_of(lowercase(line@)),
{
    let lowered = to_lowercase(line);
    read_confirmation(lowered.as_str())
}

} // verus!
