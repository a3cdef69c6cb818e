use sigchat::{
    Choice, Event, HostEndpoint, Menu, NumberError, Selection, SigChat, DEFAULT_DEVICE_NAME,
};

fn text(entered: &str) -> Event {
    Event::Text(Some(entered.to_string()))
}

#[test]
fn selection_picks_the_line_at_the_index() {
    assert_eq!(
        SigChat::selection(Menu::AccountSetup, &Event::Chosen(Some(0))),
        Selection::Picked(Choice::Link)
    );
    assert_eq!(
        SigChat::selection(Menu::AccountSetup, &Event::Chosen(Some(1))),
        Selection::Picked(Choice::Register)
    );
    assert_eq!(
        SigChat::selection(Menu::AccountSetup, &Event::Chosen(Some(2))),
        Selection::Picked(Choice::Offline)
    );
    assert_eq!(
        SigChat::selection(Menu::ConnectWifi, &Event::Chosen(Some(0))),
        Selection::Picked(Choice::Yes)
    );
    assert_eq!(
        SigChat::selection(Menu::ConnectWifi, &Event::Chosen(Some(1))),
        Selection::Picked(Choice::No)
    );
}

#[test]
fn selection_past_the_last_line_is_out_of_range() {
    assert_eq!(
        SigChat::selection(Menu::AccountSetup, &Event::Chosen(Some(3))),
        Selection::OutOfRange
    );
    assert_eq!(
        SigChat::selection(Menu::ConnectWifi, &Event::Chosen(Some(2))),
        Selection::OutOfRange
    );
    assert_eq!(
        SigChat::selection(Menu::ConnectWifi, &Event::Chosen(Some(u32::MAX))),
        Selection::OutOfRange
    );
}

#[test]
fn selection_fails_without_an_index() {
    assert_eq!(SigChat::selection(Menu::AccountSetup, &Event::Chosen(None)), Selection::Failed);
    assert_eq!(SigChat::selection(Menu::AccountSetup, &Event::Elapsed), Selection::Failed);
    assert_eq!(SigChat::selection(Menu::ConnectWifi, &Event::Bound(true)), Selection::Failed);
}

#[test]
fn wifi_try_modal_takes_yes_only() {
    assert!(SigChat::wifi_try_modal(&Event::Chosen(Some(0))));
    assert!(!SigChat::wifi_try_modal(&Event::Chosen(Some(1))));
    assert!(!SigChat::wifi_try_modal(&Event::Chosen(Some(2))));
    assert!(!SigChat::wifi_try_modal(&Event::Chosen(None)));
    assert!(!SigChat::wifi_try_modal(&Event::Bound(true)));
}

#[test]
fn host_modal_takes_a_domain() {
    let host = SigChat::host_modal(&text("Chat.Example.org")).expect("a domain");
    assert_eq!(host.name(), "chat.example.org");
}

#[test]
fn host_modal_refuses_what_is_no_domain() {
    assert_eq!(SigChat::host_modal(&text("10.0.0.1")), None);
    assert_eq!(SigChat::host_modal(&text("[2001:db8::1]")), None);
    assert_eq!(SigChat::host_modal(&text("")), None);
    assert_eq!(SigChat::host_modal(&text("two words")), None);
}

#[test]
fn host_modal_falls_back_on_the_built_in_host() {
    let built_in = HostEndpoint::parse("signal.org");
    assert!(built_in.is_some());
    assert_eq!(SigChat::host_modal(&Event::Text(None)), built_in);
    assert_eq!(SigChat::host_modal(&Event::Elapsed), built_in);
}

#[test]
fn name_modal_takes_the_text_entered() {
    assert_eq!(SigChat::name_modal(text("kitchen tablet")), "kitchen tablet");
    assert_eq!(SigChat::name_modal(text("")), "");
}

#[test]
fn name_modal_falls_back_on_the_built_in_name() {
    assert_eq!(SigChat::name_modal(Event::Text(None)), DEFAULT_DEVICE_NAME);
    assert_eq!(SigChat::name_modal(Event::Chosen(Some(0))), "xous");
}

#[test]
fn number_modal_takes_a_number() {
    assert_eq!(SigChat::number_modal(text("+15551234567")), Ok("+15551234567".to_string()));
    assert_eq!(SigChat::number_modal(text("5551234567")), Ok("5551234567".to_string()));
}

#[test]
fn number_modal_refuses_an_empty_number() {
    assert_eq!(SigChat::number_modal(text("")), Err(NumberError::Empty));
}

#[test]
fn number_modal_fails_with_the_prompt() {
    assert_eq!(SigChat::number_modal(Event::Text(None)), Err(NumberError::PromptFailed));
    assert_eq!(SigChat::number_modal(Event::Stored(true)), Err(NumberError::PromptFailed));
}
