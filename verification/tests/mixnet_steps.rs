use fhe_over_nym::mixnet::{receive_step, reply_step, IncomingMessage, ReceiveStep, ReplyStep};

fn msg(bytes: &[u8], tag: Option<u32>) -> IncomingMessage<u32> {
    IncomingMessage { message: bytes.to_vec(), sender_tag: tag }
}

#[test]
fn reply_wait_steps() {
    assert_eq!(reply_step::<u32>(None), ReplyStep::ChannelClosed);
    assert_eq!(reply_step::<u32>(Some(vec![])), ReplyStep::KeepWaiting);
    assert_eq!(
        reply_step(Some(vec![msg(&[1, 2], None), msg(&[3], Some(7))])),
        ReplyStep::Reply(vec![1, 2])
    );
}

#[test]
fn receive_wait_steps() {
    assert_eq!(receive_step::<u32>(None), ReceiveStep::ChannelClosed);
    assert_eq!(receive_step::<u32>(Some(vec![])), ReceiveStep::KeepWaiting);
    assert_eq!(receive_step(Some(vec![msg(&[1], None), msg(&[2], Some(5))])), ReceiveStep::MissingSenderTag);
    assert_eq!(
        receive_step(Some(vec![msg(&[4, 4], Some(9)), msg(&[2], None)])),
        ReceiveStep::Message(vec![4, 4], 9)
    );
}
