use badge_protocol::command::RequestCommand;

#[test]
fn request_command_codes() {
    assert_eq!(RequestCommand::BadgeInfo.code(), 0xC6);
    assert_eq!(RequestCommand::PictureSize.code(), 0xDA);
}
