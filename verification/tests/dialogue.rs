use wfm_rs::decision::Decision;
use wfm_rs::prompt::{
    confirmation_question, confirmation_step, platform_complaint, platform_question,
    platform_step, prompt_step, read_confirmation, read_platform, reply_to_choice, reply_to_price,
    Complaint, PromptReply, PromptState,
};
use wfm_rs::riven::RivenType;
use wfm_rs::shared::Platform;

fn ask(state: PromptState, complaint: Option<Complaint>) -> PromptReply {
    PromptReply::Ask { state, complaint }
}

#[test]
fn choices_are_read_in_upper_and_lower_case() {
    let choice = PromptState::AwaitingChoice;
    assert_eq!(prompt_step(choice, "c"), ask(PromptState::AwaitingPrice, None));
    assert_eq!(prompt_step(choice, "C"), ask(PromptState::AwaitingPrice, None));
    assert_eq!(prompt_step(choice, "r"), PromptReply::Decided(Decision::RemoveOrder));
    assert_eq!(prompt_step(choice, "R"), PromptReply::Decided(Decision::RemoveOrder));
    assert_eq!(prompt_step(choice, "P"), PromptReply::Decided(Decision::MakeOrderPrivate));
    assert_eq!(prompt_step(choice, "D"), PromptReply::Decided(Decision::DoNothing));
    assert_eq!(prompt_step(choice, "x"), ask(choice, Some(Complaint::InvalidOption)));
    assert_eq!(prompt_step(choice, ""), ask(choice, Some(Complaint::InvalidOption)));
    assert_eq!(prompt_step(choice, " c"), ask(choice, Some(Complaint::InvalidOption)));
    assert_eq!(prompt_step(choice, "cc"), ask(choice, Some(Complaint::InvalidOption)));
}

#[test]
fn a_choice_in_lower_case_is_read_as_it_stands() {
    assert_eq!(reply_to_choice("d"), PromptReply::Decided(Decision::DoNothing));
    assert_eq!(
        reply_to_choice("D"),
        ask(PromptState::AwaitingChoice, Some(Complaint::InvalidOption))
    );
}

#[test]
fn prices_are_whole_numbers_that_fit_sixteen_bits() {
    let price = PromptState::AwaitingPrice;
    assert_eq!(
        prompt_step(price, "45"),
        PromptReply::Decided(Decision::ChangePrice { new_price: 45 })
    );
    assert_eq!(
        reply_to_price("+7"),
        PromptReply::Decided(Decision::ChangePrice { new_price: 7 })
    );
    assert_eq!(
        reply_to_price("65535"),
        PromptReply::Decided(Decision::ChangePrice { new_price: 65535 })
    );
    assert_eq!(
        reply_to_price("0"),
        PromptReply::Decided(Decision::ChangePrice { new_price: 0 })
    );
    for wrong in ["65536", "", "+", "-3", "4.5", " 45", "45 ", "c", "99999999999999999999999"] {
        assert_eq!(reply_to_price(wrong), ask(price, Some(Complaint::InvalidPrice)));
        assert_eq!(wrong.parse::<u16>().ok(), None);
    }
}

#[test]
fn questions_and_complaints_are_worded() {
    assert_eq!(
        PromptState::AwaitingChoice.question(),
        "Do you want to [C]hange the order price, [R]emove the order, [D]o nothing, or [P]rivate the order?"
    );
    assert_eq!(PromptState::AwaitingPrice.question(), "Enter the new price:");
    assert_eq!(Complaint::InvalidOption.message(), "Invalid option!");
    assert_eq!(Complaint::InvalidPrice.message(), "Invalid number for price!");
    assert_eq!(confirmation_question(), "Is this OK? (y/n)");
    assert_eq!(platform_question(), "Platform (pc, xbox or ps4):");
    assert_eq!(platform_complaint(), "Invalid platform!");
}

#[test]
fn confirmation_is_yes_no_or_asked_again() {
    assert_eq!(confirmation_step("y"), Some(true));
    assert_eq!(confirmation_step("Y"), Some(true));
    assert_eq!(confirmation_step("n"), Some(false));
    assert_eq!(confirmation_step("N"), Some(false));
    assert_eq!(confirmation_step("yes"), None);
    assert_eq!(confirmation_step(""), None);
    assert_eq!(read_confirmation("y"), Some(true));
    assert_eq!(read_confirmation("Y"), None);
}

#[test]
fn platforms_are_named() {
    assert_eq!(platform_step("pc"), Some(Platform::Pc));
    assert_eq!(platform_step("PC"), Some(Platform::Pc));
    assert_eq!(platform_step("Xbox"), Some(Platform::Xbox));
    assert_eq!(platform_step("PS4"), Some(Platform::Ps4));
    assert_eq!(platform_step("switch"), None);
    assert_eq!(read_platform("ps4"), Some(Platform::Ps4));
    assert_eq!(read_platform("PS4"), None);
    assert_eq!(Platform::Pc.name(), "pc");
    assert_eq!(Platform::Xbox.name(), "xbox");
    assert_eq!(Platform::Ps4.name(), "ps4");
}

#[test]
fn riven_types_are_named_in_any_case() {
    assert_eq!(RivenType::from_str("melee"), Some(RivenType::Melee));
    assert_eq!(RivenType::from_str("Pistol"), Some(RivenType::Pistol));
    assert_eq!(RivenType::from_str("RIFLE"), Some(RivenType::Rifle));
    assert_eq!(RivenType::from_str("kitgun"), Some(RivenType::Kitgun));
    assert_eq!(RivenType::from_str("zAW"), Some(RivenType::Zaw));
    assert_eq!(RivenType::from_str("shotgun"), Some(RivenType::Shotgun));
    assert_eq!(RivenType::from_str("Archgun"), Some(RivenType::Archgun));
    assert_eq!(RivenType::from_str("bow"), None);
    assert_eq!(RivenType::from_str(""), None);
    assert_eq!(RivenType::from_lowercase("zaw"), Some(RivenType::Zaw));
    assert_eq!(RivenType::from_lowercase("Zaw"), None);
    assert_eq!(RivenType::Kitgun.name(), "Kitgun");
    assert_eq!(RivenType::Kitgun.cache_file_name(), "Kitgun_rivens.json");
    assert_eq!(RivenType::Melee.cache_file_name(), format!("{:?}_rivens.json", RivenType::Melee));
}
