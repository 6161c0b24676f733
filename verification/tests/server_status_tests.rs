use pollcore::server_status::get_server_status;
use pollcore::server_status::ServerHandleInfo;

#[test]
fn status_of_running_server() {
    let handle = Some(ServerHandleInfo {
        port: 8080,
        token: "tok".to_string(),
        url: "http://192.168.1.2:8080".to_string(),
        localhost_only: false,
    });
    let status = get_server_status(&handle);
    assert!(status.running);
    assert_eq!(status.url.as_deref(), Some("http://192.168.1.2:8080"));
    assert_eq!(status.token.as_deref(), Some("tok"));
    assert_eq!(status.port, Some(8080));
    assert_eq!(status.localhost_only, Some(false));
}

#[test]
fn status_of_stopped_server() {
    let status = get_server_status(&None);
    assert!(!status.running);
    assert!(status.url.is_none());
    assert!(status.token.is_none());
    assert!(status.port.is_none());
    assert!(status.localhost_only.is_none());
}
