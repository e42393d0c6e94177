use lib::oneshot::channel;
use lib::oneshot::ChannelError;
use lib::oneshot::OneShot;

#[test]
fn it_works() {
    let (sender, receiver) = channel();
    assert!(!receiver.is_ready());
    sender.send("hello, world!");
    assert!(receiver.is_ready());
    assert_eq!(receiver.receive(), Ok("hello, world!"));
}

#[test]
fn receive_before_send_reports_no_message() {
    let (_sender, receiver) = channel::<u8>();
    assert_eq!(receiver.receive(), Err(ChannelError::NoMessage));
}

#[test]
fn one_shot_state_round_trip() {
    let mut state: OneShot<String> = OneShot::new();
    assert!(!state.is_ready());
    assert_eq!(state.receive(), Err(ChannelError::NoMessage));
    state.send(String::from("hi"));
    assert!(state.is_ready());
    assert_eq!(state.receive(), Ok(String::from("hi")));
    assert!(!state.is_ready());
    assert_eq!(state.receive(), Err(ChannelError::NoMessage));
}
