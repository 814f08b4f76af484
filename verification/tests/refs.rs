use botwire::refs::ChannelId;
use botwire::refs::ChatId;
use botwire::refs::ChatRef;
use botwire::refs::FileRef;
use botwire::refs::GroupId;
use botwire::refs::MessageId;
use botwire::refs::SupergroupId;
use botwire::refs::ToChatRef;
use botwire::refs::ToFileRef;
use botwire::refs::ToMessageId;
use botwire::refs::ToSourceChat;
use botwire::refs::ToUserId;
use botwire::refs::UserId;
use botwire::types::Channel;
use botwire::types::Chat;
use botwire::types::ChatMember;
use botwire::types::File;
use botwire::types::Forward;
use botwire::types::ForwardFrom;
use botwire::types::Group;
use botwire::types::Message;
use botwire::types::PhotoSize;
use botwire::types::User;

#[test]
fn chat_family_refs_are_by_id() {
    assert_eq!(ChatId::new(1).to_chat_ref(), ChatRef::Id(ChatId::new(1)));
    assert_eq!(UserId::new(2).to_chat_ref(), ChatRef::Id(ChatId::new(2)));
    assert_eq!(GroupId::new(3).to_chat_ref(), ChatRef::Id(ChatId::new(3)));
    assert_eq!(
        SupergroupId::new(4).to_chat_ref(),
        ChatRef::Id(ChatId::new(4))
    );
    assert_eq!(ChannelId::new(5).to_chat_ref(), ChatRef::Id(ChatId::new(5)));
}

#[test]
fn entity_refs_delegate_to_their_id() {
    let user = User { id: UserId::new(10) };
    assert_eq!(user.to_chat_ref(), ChatRef::Id(ChatId::new(10)));
    let chat = Chat::Group(Group { id: GroupId::new(11) });
    assert_eq!(chat.to_chat_ref(), ChatRef::Id(ChatId::new(11)));
    let member = ChatMember { user: User { id: UserId::new(12) } };
    assert_eq!(member.to_chat_ref(), ChatRef::Id(ChatId::new(12)));
    assert_eq!(member.to_user_id(), UserId::new(12));
}

#[test]
fn chat_ref_converts_to_itself() {
    let r = ChatRef::ChannelUsername(String::from("@chan"));
    assert_eq!(r.to_chat_ref(), r);
    let i = ChatRef::Id(ChatId::new(9));
    assert_eq!(i.to_chat_ref(), i);
}

#[test]
fn source_chat_is_the_receiving_chat() {
    // the forwarding record does not influence the source chat
    let m = Message {
        id: MessageId::new(1),
        chat: Chat::Group(Group { id: GroupId::new(5) }),
        forward: Some(Forward {
            date: 0,
            from: ForwardFrom::Channel {
                channel: Channel { id: ChannelId::new(9) },
            },
        }),
    };
    assert_eq!(m.to_source_chat(), ChatId::new(5));
    assert_eq!(m.to_message_id(), MessageId::new(1));
}

#[test]
fn forward_from_channel_delegates_to_the_channel() {
    let f = ForwardFrom::Channel {
        channel: Channel { id: ChannelId::new(9) },
    };
    assert_eq!(f.to_chat_ref(), ChatRef::Id(ChatId::new(9)));
    let fwd = Forward { date: 123, from: f };
    assert_eq!(fwd.to_chat_ref(), ChatRef::Id(ChatId::new(9)));
}

#[test]
fn forward_from_user_delegates_to_the_user() {
    let f = ForwardFrom::User { user: User { id: UserId::new(4) } };
    assert_eq!(f.to_chat_ref(), ChatRef::Id(ChatId::new(4)));
}

#[test]
fn file_entities_yield_their_file_ref() {
    let file = File { file_id: String::from("AgACAg") };
    assert_eq!(file.to_file_ref(), FileRef::new("AgACAg"));
    let photo = PhotoSize { file_id: String::from("photo-1") };
    assert_eq!(photo.to_file_ref(), FileRef::new("photo-1"));
    let r = FileRef::from(String::from("xyz"));
    assert_eq!(r.to_file_ref(), FileRef::new("xyz"));
}

#[test]
fn borrowed_values_convert_like_their_target() {
    let user = User { id: UserId::new(21) };
    let borrowed = &user;
    assert_eq!(borrowed.to_chat_ref(), ChatRef::Id(ChatId::new(21)));
    assert_eq!(borrowed.to_user_id(), UserId::new(21));
    let m = Message {
        id: MessageId::new(8),
        chat: Chat::Private(User { id: UserId::new(2) }),
        forward: None,
    };
    let borrowed_message = &m;
    assert_eq!(borrowed_message.to_source_chat(), ChatId::new(2));
    assert_eq!(borrowed_message.to_message_id(), MessageId::new(8));
}
