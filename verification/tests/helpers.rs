use session_dispatch::common::helpers::{get_random_digit_string, get_random_string, Description};
use session_dispatch::protocol::{
    AnswerTargetEnum, ClientDescription, ClientGroupEnum, CommandTargetEnum,
    LookAsClientGroupEnum, LookAsTargetAnswerEnum, LookAsTargetCommandEnum, TargetAsDigit,
};

#[test]
fn test_random_string() {
    let line = get_random_string(512);
    println!("New random string: {}", line);
    assert_eq!(line.len(), 512);
    let mut other_sumb = false;
    for ch in line.bytes() {
        let sumb = ch as i32;
        other_sumb &= sumb > 126 || sumb < 48;
    }
    assert!(!other_sumb);
}

#[test]
fn random_string_stays_in_printable_range() {
    let line = get_random_string(2048);
    assert_eq!(line.chars().count(), 2048);
    for ch in line.bytes() {
        assert!(ch >= 48 && ch < 126, "byte {} out of range", ch);
    }
}

#[test]
fn random_string_of_no_length_is_empty() {
    assert_eq!(get_random_string(0), String::new());
    assert_eq!(get_random_digit_string(0), String::new());
}

#[test]
fn random_digit_string_holds_digits_below_nine() {
    let line = get_random_digit_string(400);
    assert_eq!(line.len(), 400);
    for ch in line.bytes() {
        assert!(ch >= b'0' && ch < b'9', "byte {} out of range", ch);
    }
}

#[test]
fn random_strings_differ() {
    let first = get_random_string(128);
    let second = get_random_string(128);
    assert_ne!(first, second);
}

#[test]
fn command_codes() {
    assert_eq!(CommandTargetEnum::Unknown.to_u32(), 0);
    assert_eq!(CommandTargetEnum::Quit.to_u32(), 1);
    assert_eq!(CommandTargetEnum::SigIn.to_u32(), 2);
    assert_eq!(CommandTargetEnum::Auth.to_u32(), 3);
    assert_eq!(CommandTargetEnum::ClientData.to_u32(), 4);
}

#[test]
fn answer_codes() {
    assert_eq!(AnswerTargetEnum::Unknown.to_u32(), 0);
    assert_eq!(AnswerTargetEnum::Quit.to_u32(), 1);
    assert_eq!(AnswerTargetEnum::Skip.to_u32(), 2);
    assert_eq!(AnswerTargetEnum::VerificationRequest.to_u32(), 3);
    assert_eq!(AnswerTargetEnum::Error.to_u32(), 4);
    assert_eq!(AnswerTargetEnum::WhoAreYou.to_u32(), 5);
    assert_eq!(AnswerTargetEnum::Wait.to_u32(), 6);
}

#[test]
fn group_codes() {
    assert_eq!(ClientGroupEnum::Manager.to_u32(), 1);
    assert_eq!(ClientGroupEnum::Server.to_u32(), 2);
    assert_eq!(ClientGroupEnum::Service.to_u32(), 3);
}

#[test]
fn codes_name_command_kinds() {
    assert_eq!(<u32 as LookAsTargetCommandEnum>::as_target_enum(&0), CommandTargetEnum::Unknown);
    assert_eq!(<u32 as LookAsTargetCommandEnum>::as_target_enum(&1), CommandTargetEnum::Quit);
    assert_eq!(<u32 as LookAsTargetCommandEnum>::as_target_enum(&2), CommandTargetEnum::SigIn);
    assert_eq!(<u32 as LookAsTargetCommandEnum>::as_target_enum(&3), CommandTargetEnum::Auth);
    assert_eq!(<u32 as LookAsTargetCommandEnum>::as_target_enum(&4), CommandTargetEnum::ClientData);
    assert_eq!(<u32 as LookAsTargetCommandEnum>::as_target_enum(&5), CommandTargetEnum::Unknown);
    assert_eq!(
        <u32 as LookAsTargetCommandEnum>::as_target_enum(&u32::MAX),
        CommandTargetEnum::Unknown
    );
}

#[test]
fn codes_name_answer_kinds() {
    assert_eq!(<u32 as LookAsTargetAnswerEnum>::as_target_enum(&0), AnswerTargetEnum::Unknown);
    assert_eq!(<u32 as LookAsTargetAnswerEnum>::as_target_enum(&1), AnswerTargetEnum::Quit);
    assert_eq!(<u32 as LookAsTargetAnswerEnum>::as_target_enum(&2), AnswerTargetEnum::Skip);
    assert_eq!(
        <u32 as LookAsTargetAnswerEnum>::as_target_enum(&3),
        AnswerTargetEnum::VerificationRequest
    );
    assert_eq!(<u32 as LookAsTargetAnswerEnum>::as_target_enum(&4), AnswerTargetEnum::Error);
    assert_eq!(<u32 as LookAsTargetAnswerEnum>::as_target_enum(&5), AnswerTargetEnum::WhoAreYou);
    assert_eq!(<u32 as LookAsTargetAnswerEnum>::as_target_enum(&6), AnswerTargetEnum::Wait);
    assert_eq!(<u32 as LookAsTargetAnswerEnum>::as_target_enum(&7), AnswerTargetEnum::Unknown);
}

#[test]
fn codes_name_groups() {
    assert_eq!(<u32 as LookAsClientGroupEnum>::as_target_enum(&1), ClientGroupEnum::Manager);
    assert_eq!(<u32 as LookAsClientGroupEnum>::as_target_enum(&2), ClientGroupEnum::Server);
    assert_eq!(<u32 as LookAsClientGroupEnum>::as_target_enum(&3), ClientGroupEnum::Service);
    assert_eq!(<u32 as LookAsClientGroupEnum>::as_target_enum(&0), ClientGroupEnum::Service);
    assert_eq!(<u32 as LookAsClientGroupEnum>::as_target_enum(&99), ClientGroupEnum::Service);
}

#[test]
fn kinds_are_described() {
    assert_eq!(CommandTargetEnum::Quit.description(), "'quit'");
    assert_eq!(CommandTargetEnum::Unknown.description(), "'unknown'");
    assert_eq!(CommandTargetEnum::SigIn.description(), "'sigin'");
    assert_eq!(CommandTargetEnum::Auth.description(), "'auth'");
    assert_eq!(CommandTargetEnum::ClientData.description(), "'client data'");
    assert_eq!(AnswerTargetEnum::Quit.description(), "'quit'");
    assert_eq!(AnswerTargetEnum::Unknown.description(), "'unknown'");
    assert_eq!(AnswerTargetEnum::Skip.description(), "'skip'");
    assert_eq!(AnswerTargetEnum::VerificationRequest.description(), "'verification request'");
    assert_eq!(AnswerTargetEnum::Error.description(), "'error'");
    assert_eq!(AnswerTargetEnum::WhoAreYou.description(), "'auth successful'");
    assert_eq!(AnswerTargetEnum::Wait.description(), "'wait'");
    assert_eq!(ClientGroupEnum::Manager.description(), "'manager'");
    assert_eq!(ClientGroupEnum::Server.description(), "'server'");
    assert_eq!(ClientGroupEnum::Service.description(), "'service'");
}

#[test]
fn client_description_gives_its_identifier() {
    let named = ClientDescription { group: 2, cid: "abc".to_string() };
    assert_eq!(named.get_cid(), Some("abc".to_string()));
    let nameless = ClientDescription { group: 2, cid: String::new() };
    assert_eq!(nameless.get_cid(), None);
}
