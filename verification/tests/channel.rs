use pi_atom::Atom;
use vm_factory::{
    async_request, get_async_request_size, get_channels_gray, register_async_request,
    set_channels_gray, unregister_async_request, Counter, VMChannelMap,
};

#[test]
fn the_gray_value_is_what_was_set_last() {
    let mut channels: VMChannelMap<u8> = VMChannelMap::new(0);
    assert_eq!(get_channels_gray(&channels), 0);
    assert_eq!(set_channels_gray(&mut channels, 4), 0);
    assert_eq!(set_channels_gray(&mut channels, 6), 4);
    assert_eq!(get_channels_gray(&channels), 6);
    assert_eq!(get_async_request_size(&channels), 0);
}

#[test]
fn requests_go_to_the_handler_of_their_name() {
    let mut channels: VMChannelMap<u8> = VMChannelMap::new(0);
    assert_eq!(register_async_request(&mut channels, Atom::from("mail"), 1), None);
    assert_eq!(register_async_request(&mut channels, Atom::from("chat"), 2), None);
    assert_eq!(get_async_request_size(&channels), 2);
    assert_eq!(async_request(&channels, &Atom::from("mail")).handler, Some(&1));
    assert_eq!(async_request(&channels, &Atom::from("chat")).handler, Some(&2));
    assert_eq!(async_request(&channels, &Atom::from("mai")).handler, None);
}

#[test]
fn a_second_registration_replaces_the_first() {
    let mut channels: VMChannelMap<u8> = VMChannelMap::new(0);
    register_async_request(&mut channels, Atom::from("mail"), 1);
    register_async_request(&mut channels, Atom::from("chat"), 2);
    assert_eq!(register_async_request(&mut channels, Atom::from("mail"), 3), Some(1));
    assert_eq!(get_async_request_size(&channels), 2);
    assert_eq!(async_request(&channels, &Atom::from("mail")).handler, Some(&3));
    assert_eq!(async_request(&channels, &Atom::from("chat")).handler, Some(&2));
}

#[test]
fn an_unregistered_name_has_no_handler() {
    let mut channels: VMChannelMap<u8> = VMChannelMap::new(2);
    register_async_request(&mut channels, Atom::from("mail"), 1);
    register_async_request(&mut channels, Atom::from("chat"), 2);
    assert_eq!(unregister_async_request(&mut channels, Atom::from("mail")), Some(1));
    assert_eq!(unregister_async_request(&mut channels, Atom::from("mail")), None);
    assert_eq!(async_request(&channels, &Atom::from("mail")).handler, None);
    assert_eq!(async_request(&channels, &Atom::from("chat")).handler, Some(&2));
    assert_eq!(get_async_request_size(&channels), 1);
    assert_eq!(get_channels_gray(&channels), 2);
}

#[test]
fn atoms_with_the_same_characters_are_one_name() {
    let mut channels: VMChannelMap<u8> = VMChannelMap::new(0);
    assert_eq!(register_async_request(&mut channels, Atom::default(), 1), None);
    assert_eq!(register_async_request(&mut channels, Atom::from(""), 2), Some(1));
    assert_eq!(get_async_request_size(&channels), 1);
    assert_eq!(async_request(&channels, &Atom::default()).handler, Some(&2));
    assert_eq!(unregister_async_request(&mut channels, Atom::default()), Some(2));
    assert_eq!(get_async_request_size(&channels), 0);
}

#[test]
fn every_request_is_counted_whether_it_is_taken_or_not() {
    let mut channels: VMChannelMap<u8> = VMChannelMap::new(0);
    register_async_request(&mut channels, Atom::from("mail"), 1);
    let taken = async_request(&channels, &Atom::from("mail"));
    let refused = async_request(&channels, &Atom::from("chat"));
    assert_eq!(taken.counter, Counter::VmAsyncRequestCount);
    assert_eq!(refused.counter, Counter::VmAsyncRequestCount);
    assert!(taken.handler.is_some() && refused.handler.is_none());
}
