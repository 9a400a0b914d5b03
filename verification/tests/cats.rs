use discord_plugins::cats::{count_request, request_uri, status_error, CatResponse};

#[test]
fn uri_of_one_image_and_of_a_search() {
    assert_eq!(request_uri(Some("abc")), "https://api.thecatapi.com/v1/images/abc");
    assert_eq!(request_uri(None), "https://api.thecatapi.com/v1/images/search");
}

#[test]
fn only_status_200_is_accepted() {
    assert_eq!(status_error(200), None);
    assert_eq!(
        status_error(404),
        Some(String::from("The HTTP response returned an unwanted status code: 404"))
    );
    assert_eq!(
        status_error(0),
        Some(String::from("The HTTP response returned an unwanted status code: 0"))
    );
}

#[test]
fn cat_response_holds_its_fields() {
    let cat = CatResponse {
        id: String::from("x1"),
        url: String::from("https://cdn.example/x1.jpg"),
        width: Some(640),
        heigth: None,
        mime_type: None,
    };
    assert_eq!(cat.clone(), cat);
    assert_eq!(cat.width, Some(640));
}

#[test]
fn every_request_counts() {
    assert_eq!(count_request(0), 1);
    assert_eq!(count_request(41), 42);
    assert_eq!(count_request(u32::MAX - 1), u32::MAX);
    assert_eq!(count_request(u32::MAX), u32::MAX);
}
