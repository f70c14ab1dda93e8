use chat_relay::error::RelayError;
use chat_relay::message::MessageType;
use chat_relay::text::to_decimal;

#[test]
fn decimal_of_small_and_large_numbers() {
    assert_eq!(to_decimal(0), "0");
    assert_eq!(to_decimal(7), "7");
    assert_eq!(to_decimal(10), "10");
    assert_eq!(to_decimal(254), "254");
    assert_eq!(to_decimal(3625), "3625");
    assert_eq!(to_decimal(10_000_001), "10000001");
    assert_eq!(to_decimal(u64::MAX), "18446744073709551615");
}

#[test]
fn decimal_agrees_with_the_standard_rendering() {
    for n in (0u64..2000).chain([65_535, 65_536, 999_999, 1_000_000]) {
        assert_eq!(to_decimal(n), n.to_string());
    }
}

#[test]
fn error_texts() {
    assert_eq!(RelayError::NotConnected.describe(), "Not connected to server");
    assert_eq!(
        RelayError::FrameTooLarge(10_000_001).describe(),
        "Message too large: 10000001 bytes"
    );
    assert_eq!(RelayError::BindError.describe(), "Failed to bind the listening socket");
    assert_eq!(RelayError::MalformedFrame.describe(), "Malformed message");
    assert_eq!(RelayError::ConnectionClosed.describe(), "Connection closed");
}

#[test]
fn kind_names() {
    assert_eq!(MessageType::Connect.name(), "Connect");
    assert_eq!(MessageType::Disconnect.name(), "Disconnect");
    assert_eq!(MessageType::Chat.name(), "Chat");
    assert_eq!(MessageType::RoomJoin.name(), "RoomJoin");
    assert_eq!(MessageType::RoomLeave.name(), "RoomLeave");
    assert_eq!(MessageType::UserList.name(), "UserList");
    assert_eq!(MessageType::ServerAck.name(), "ServerAck");
}
