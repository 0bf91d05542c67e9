use ig_rs::igclient::igdevice::IGAndroidDevice;
use ig_rs::igclient::igrequests::accounts_login::{LoginRequest, LoginResponse};
use ig_rs::igclient::igrequests::direct_v2_inbox::DirectV2InboxRequest;
use ig_rs::igclient::igrequests::qe_sync::{QeRequest, QeResponse};
use ig_rs::igclient::igrequests::{IGGetRequest, IGPostRequest, IGRequestMetadata};
use ig_rs::igclient::utils::{find_cookie_value, split_cookie_str, MalformedCookie};
use ig_rs::igclient::{
    check_qe_sync_response, get_request_url, signed_body, IGClientConfig, IGLoginErrorResponse,
};
use ig_rs::igmqttclient::payloads::ConnectPayloadValues;

const USER_AGENT: &str = "Instagram 148.0.0.33.121 Android (23/6.0.1; 640dpi; 1440x2560; samsung; SM-G935F; hero2lte; samsungexynos8890; en_US)";

fn config_with_cookies(cookies: &str) -> IGClientConfig {
    IGClientConfig {
        guid: "guid-1".to_string(),
        device: IGAndroidDevice::new("1234"),
        csrftoken: "token".to_string(),
        cookies_str: cookies.to_string(),
        pk: 42,
    }
}

fn strings(v: &[&str]) -> Vec<String> {
    v.iter().map(|s| s.to_string()).collect()
}

#[test]
fn device_from_seed_1234() {
    let device = IGAndroidDevice::new("1234");
    assert_eq!(device.device_id, "android-81dc9bdb52d04dc2");
    assert_eq!(device.user_agent, USER_AGENT);
    assert_eq!(device.capabilities, "3brTvw==");
}

#[test]
fn device_id_depends_on_the_seed() {
    let a = IGAndroidDevice::new("seed-a");
    let b = IGAndroidDevice::new("seed-b");
    assert_ne!(a.device_id, b.device_id);
    assert_eq!(a.device_id, IGAndroidDevice::new("seed-a").device_id);
    assert_eq!(a.device_id.len(), 24);
    assert!(a.device_id.starts_with("android-"));
    assert_eq!(IGAndroidDevice::new("").device_id, "android-d41d8cd98f00b204");
}

#[test]
fn new_logged_out_config() {
    let config = IGClientConfig::new_logged_out();
    assert_eq!(config.pk, -1);
    assert_eq!(config.csrftoken, "missing");
    assert_eq!(config.cookies_str, "");
    assert_eq!(config.device.device_id, "android-81dc9bdb52d04dc2");
    assert_eq!(config.guid.len(), 36);
    assert_eq!(config.guid.chars().nth(14), Some('4'));
    assert!(matches!(config.guid.chars().nth(19), Some('8' | '9' | 'a' | 'b')));
    for (i, c) in config.guid.chars().enumerate() {
        if i == 8 || i == 13 || i == 18 || i == 23 {
            assert_eq!(c, '-');
        } else {
            assert!(c.is_ascii_hexdigit() && !c.is_ascii_uppercase());
        }
    }
}

#[test]
fn split_cookie_str_like_str_split() {
    assert_eq!(split_cookie_str("a=1; b=2"), strings(&["a=1", "b=2"]));
    assert_eq!(split_cookie_str("a=1; "), strings(&["a=1", ""]));
    assert_eq!(split_cookie_str(""), strings(&[""]));
    assert_eq!(split_cookie_str("x;y; z"), strings(&["x;y", "z"]));
    assert_eq!(split_cookie_str("; ; "), strings(&["", "", ""]));
    assert_eq!(split_cookie_str("é=1; ü=2"), strings(&["é=1", "ü=2"]));
}

#[test]
fn find_cookie_value_finds_the_first_match() {
    let cookies = strings(&["csrftoken=abc", "sessionid=s1", "sessionid=s2"]);
    assert_eq!(find_cookie_value(&cookies, "sessionid"), Ok(Some("s1".to_string())));
    assert_eq!(find_cookie_value(&cookies, "csrftoken"), Ok(Some("abc".to_string())));
    assert_eq!(find_cookie_value(&cookies, "ds_user_id"), Ok(None));
}

#[test]
fn find_cookie_value_trims_and_unquotes() {
    let cookies = strings(&[" name = \" v \" ; Path=/; HttpOnly"]);
    assert_eq!(find_cookie_value(&cookies, "name"), Ok(Some("v".to_string())));
    let cookies = strings(&["a=\"\""]);
    assert_eq!(find_cookie_value(&cookies, "a"), Ok(Some("".to_string())));
}

#[test]
fn find_cookie_value_reports_malformed_cookies_before_a_match() {
    let cookies = strings(&["noequals", "sessionid=s1"]);
    assert_eq!(find_cookie_value(&cookies, "sessionid"), Err(MalformedCookie));
    let cookies = strings(&["=emptyname", "sessionid=s1"]);
    assert_eq!(find_cookie_value(&cookies, "sessionid"), Err(MalformedCookie));
    let cookies = strings(&["sessionid=s1", "noequals"]);
    assert_eq!(find_cookie_value(&cookies, "sessionid"), Ok(Some("s1".to_string())));
}

#[test]
fn config_cookie_lookup() {
    let config = config_with_cookies("csrftoken=abc; sessionid=xyz%3A1");
    assert_eq!(config.get_cookie_value("sessionid"), Some("xyz%3A1".to_string()));
    assert_eq!(config.get_cookie_value("mid"), None);
    assert_eq!(config.cookie_strs(), strings(&["csrftoken=abc", "sessionid=xyz%3A1"]));
    let broken = config_with_cookies("oops; sessionid=1");
    assert_eq!(broken.find_cookie_value("sessionid"), Err(MalformedCookie));
}

#[test]
fn request_headers_of_config() {
    let config = config_with_cookies("");
    let headers = config.request_headers();
    let expected = vec![
        ("Connection", "close"),
        ("X-IG-Capabilities", "3brTvw=="),
        ("X-IG-App-ID", "567067343352427"),
        ("User-Agent", USER_AGENT),
        ("X-IG-Device-ID", "guid-1"),
        ("X-IG-Android-ID", "android-81dc9bdb52d04dc2"),
    ];
    let expected: Vec<(String, String)> =
        expected.into_iter().map(|(a, b)| (a.to_string(), b.to_string())).collect();
    assert_eq!(headers, expected);
}

#[test]
fn record_response_cookies_replaces_only_what_is_given() {
    let mut config = config_with_cookies("a=1");
    config.record_response_cookies(None, None);
    assert_eq!(config.csrftoken, "token");
    assert_eq!(config.cookies_str, "a=1");
    config.record_response_cookies(Some("new".to_string()), None);
    assert_eq!(config.csrftoken, "new");
    assert_eq!(config.cookies_str, "a=1");
    config.record_response_cookies(None, Some("b=2; c=3".to_string()));
    assert_eq!(config.csrftoken, "new");
    assert_eq!(config.cookies_str, "b=2; c=3");
    assert_eq!(config.pk, 42);
}

#[test]
fn login_success_records_pk() {
    let mut config = config_with_cookies("");
    let response = LoginResponse::Success { logged_in_user: "{\"pk\":7}".to_string(), pk: 7 };
    match config.apply_login_response(response) {
        Ok(LoginResponse::Success { pk, logged_in_user }) => {
            assert_eq!(pk, 7);
            assert_eq!(logged_in_user, "{\"pk\":7}");
        }
        other => panic!("unexpected {:?}", other),
    }
    assert_eq!(config.pk, 7);
}

#[test]
fn login_failure_keeps_config() {
    let mut config = config_with_cookies("");
    let response = LoginResponse::Fail("{\"status\":\"fail\"}".to_string());
    match config.apply_login_response(response) {
        Err(IGLoginErrorResponse::AccountsLoginResponse(LoginResponse::Fail(body))) => {
            assert_eq!(body, "{\"status\":\"fail\"}")
        }
        other => panic!("unexpected {:?}", other),
    }
    assert_eq!(config.pk, 42);
}

#[test]
fn qe_sync_failure_stops_login() {
    assert!(matches!(
        check_qe_sync_response(QeResponse::Success("{}".to_string())),
        Ok(QeResponse::Success(_))
    ));
    assert!(matches!(
        check_qe_sync_response(QeResponse::Fail("{}".to_string())),
        Err(IGLoginErrorResponse::QeSyncResponse(QeResponse::Fail(_)))
    ));
}

#[test]
fn login_request_from_credentials() {
    let request = LoginRequest::from_credentials("alice", "secret");
    assert_eq!(request.username, "alice");
    assert_eq!(request.enc_password, "#PWD_INSTAGRAM:0:&:secret");
    assert_eq!(request.login_attempt_account, 0);
    assert!(request.metadata.is_none());
    assert_eq!(request.url(), "https://i.instagram.com/api/v1/accounts/login/");
}

#[test]
fn login_request_payload_adds_metadata() {
    let config = config_with_cookies("");
    let request = LoginRequest::new("bob".to_string(), "pw".to_string(), 3);
    let payload = request.payload(IGRequestMetadata::from_config(&config));
    let metadata = payload.metadata.unwrap();
    assert_eq!(metadata.csrftoken, "token");
    assert_eq!(metadata.id, "guid-1");
    assert_eq!(metadata.guid, "guid-1");
    assert_eq!(metadata.phone_id, "guid-1");
    assert_eq!(metadata.device_id, "android-81dc9bdb52d04dc2");
    assert_eq!(payload.username, "bob");
    assert_eq!(payload.enc_password, "pw");
    assert_eq!(payload.login_attempt_account, 3);
}

#[test]
fn qe_request_url_and_payload() {
    let config = config_with_cookies("");
    let request = QeRequest::new("exp1,exp2".to_string());
    assert!(request.metadata.is_none());
    assert_eq!(request.url(), "https://i.instagram.com/api/v1/qe/sync/");
    let payload = request.payload(IGRequestMetadata::from_config(&config));
    assert_eq!(payload.experiments, "exp1,exp2");
    assert_eq!(payload.metadata.unwrap().csrftoken, "token");
}

#[test]
fn direct_inbox_request() {
    let request = DirectV2InboxRequest {};
    assert_eq!(request.url(), "https://i.instagram.com/api/v1/direct_v2/inbox/");
    assert!(std::ptr::eq(request.query_strings(), &request));
}

#[test]
fn get_url_and_signed_body() {
    assert_eq!(get_request_url("https://x/y/", "a=1&b=2"), "https://x/y/?a=1&b=2");
    assert_eq!(get_request_url("https://x/y/", ""), "https://x/y/?");
    assert_eq!(signed_body("{\"a\":1}"), "SIGNATURE.{\"a\":1}");
}

#[test]
fn connect_payload_values_from_config() {
    let config = config_with_cookies("csrftoken=abc; sessionid=xyz");
    let values = ConnectPayloadValues::from_config(&config, 1_600_000_000_000);
    assert_eq!(values.client_identifier, "android-81dc9bdb52d0");
    assert_eq!(values.user_id, 42);
    assert_eq!(values.user_agent, USER_AGENT);
    assert_eq!(values.device_id, "android-81dc9bdb52d04dc2");
    assert_eq!(values.client_mqtt_session_id, 1_600_000_000_000);
    assert_eq!(values.password, "sessionid=xyz");
    assert_eq!(values.subscribe_topics, vec![88, 135, 149, 150, 133, 146]);
    assert_eq!(values.client_type, "cookie_auth");
    assert_eq!(values.app_id, 567067343352427);
    assert_eq!(values.client_capabilities, 183);
    assert_eq!(values.client_stack, 3);
    assert_eq!(values.device_secret, "");
    assert_eq!(values.app_specific_info.len(), 9);
    assert_eq!(values.app_specific_info[0], ("app_version".to_string(), "148.0.0.33.121".to_string()));
    assert_eq!(values.app_specific_info[1], ("X-IG-Capabilities".to_string(), "3brTvw==".to_string()));
    assert_eq!(values.app_specific_info[3], ("User-Agent".to_string(), USER_AGENT.to_string()));
    assert_eq!(values.app_specific_info[8], ("auth_cache_enabled".to_string(), "0".to_string()));
}

#[test]
fn cookie_pairs_join_back_to_the_header_value() {
    for s in ["", "a=1", "a=1; b=2", "a=1; ", "; ; x", "x;y; z", "é=1; ü=2"] {
        assert_eq!(split_cookie_str(s).join("; "), s);
    }
}
