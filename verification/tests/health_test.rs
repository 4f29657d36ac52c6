use todo_service::response::health_status;

#[test]
fn returns_200() {
    let body = health_status(true);
    assert_eq!(body.api, "OK");
}

#[test]
fn returns_health_data() {
    let body = health_status(true);
    assert_eq!(body.api, "OK");
    assert_eq!(body.database, "OK");
}

#[test]
fn reports_database_down() {
    let body = health_status(false);
    assert_eq!(body.api, "OK");
    assert_eq!(body.database, "NOK");
}
