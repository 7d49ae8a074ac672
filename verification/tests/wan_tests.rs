use ddns_sync::errors::SyncError;
use ddns_sync::wan::{status_page_url, wan_step_home, wan_step_status};

#[test]
fn home_step_non_success_status_fails_upstream() {
    let r = wan_step_home(500, "<html>http_id=TOK\"</html>");
    assert_eq!(r, Err(SyncError::UpstreamError { status: 500 }));
}

#[test]
fn home_step_without_token_fails_extraction() {
    let r = wan_step_home(200, "<html><body>login page</body></html>");
    assert_eq!(r, Err(SyncError::ExtractionError));
}

#[test]
fn home_step_extracts_token() {
    let r = wan_step_home(200, "<a href=\"status.asp?http_id=TID999\">go</a>");
    assert_eq!(r, Ok("TID999".to_string()));
}

#[test]
fn status_url_carries_token() {
    assert_eq!(
        status_page_url("http://192.168.1.1", "TID999"),
        "http://192.168.1.1/status-data.jsx?_http_id=TID999"
    );
}

#[test]
fn status_step_non_success_status_fails_upstream() {
    let r = wan_step_status(401, "'wan_ipaddr': '1.2.3.4'");
    assert_eq!(r, Err(SyncError::UpstreamError { status: 401 }));
}

#[test]
fn status_step_without_key_fails_extraction() {
    let r = wan_step_status(200, "{ 'lan_ipaddr': '192.168.1.1' }");
    assert_eq!(r, Err(SyncError::ExtractionError));
}

#[test]
fn status_step_extracts_wan_ip() {
    let r = wan_step_status(200, "{ 'wan_ipaddr': '203.0.113.7' }");
    assert_eq!(r, Ok("203.0.113.7".to_string()));
}
