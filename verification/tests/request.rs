use star_adventurer::errors::AlpacaError;
use star_adventurer::request::{handler_route, HttpMethod, PulseGuideData};
use star_adventurer::enums::GuideDirection;
use star_adventurer::response::{generate_server_transaction_id, AlpacaResponse};

#[test]
fn handler_routes() {
    let r = handler_route("get_side_of_pier").unwrap();
    assert_eq!(r.method, HttpMethod::Get);
    assert_eq!(r.path, "/sideofpier?<_data..>");
    let r = handler_route("put_move_axis").unwrap();
    assert_eq!(r.method, HttpMethod::Put);
    assert_eq!(r.path, "/moveaxis");
    assert!(handler_route("post_park").is_none());
    assert!(handler_route("park").is_none());
}

#[test]
fn request_data() {
    let d = PulseGuideData {
        direction: GuideDirection::West,
        duration: 500,
        client_id: 1,
        client_transaction_id: 7,
    };
    assert_eq!(d.duration, 500);
}

#[test]
fn responses() {
    let mut sti: u32 = 9;
    let r = AlpacaResponse::new(Ok::<bool, AlpacaError>(true), 7, &mut sti);
    assert_eq!(r.value, Some(true));
    assert_eq!(r.error_number, 0);
    assert_eq!(r.error_message, "");
    assert_eq!(r.client_transaction_id, 7);
    assert_eq!(r.server_transaction_id, 9);
    assert_eq!(sti, 10);
    let r = AlpacaResponse::<bool>::new(Err(AlpacaError::invalid_value("bad")), 1, &mut sti);
    assert_eq!(r.server_transaction_id, 10);
    assert_eq!(sti, 11);
    assert_eq!(r.value, None);
    assert_eq!(r.error_number, 0x401);
    assert_eq!(r.error_message, "bad");
}

#[test]
fn server_transaction_ids_count_on_and_wrap() {
    let mut sti: u32 = 0;
    assert_eq!(generate_server_transaction_id(&mut sti), 0);
    assert_eq!(generate_server_transaction_id(&mut sti), 1);
    let mut sti: u32 = u32::MAX;
    assert_eq!(generate_server_transaction_id(&mut sti), u32::MAX);
    assert_eq!(sti, 0);
}
