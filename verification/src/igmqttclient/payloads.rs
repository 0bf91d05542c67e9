//! The values of the MQTToT CONNECT payload (a thrift `ConnectPayload` with
//! its `ClientInfo`), as the client fills them in from its configuration.

use crate::igclient::utils::{lookup_cookie, split_cookie_pairs, CookieLookup};
use crate::igclient::IGClientConfig;
use vstd::prelude::*;

verus! {

/// The name of the session cookie the CONNECT payload authenticates with.
pub open spec fn session_cookie_name() -> Seq<char> {
    "sessionid"@
}

/// The session id cookie's value, where the configuration holds one.
pub open spec fn session_id_of(config: IGClientConfig) -> Seq<char> {
    match lookup_cookie(split_cookie_pairs(config.cookies_str@), session_cookie_name()) {
        CookieLookup::Found(v) => v,
        _ => Seq::empty(),
    }
}

/// The app-specific information the client announces, as (key, value)
/// pairs in the order they are announced.
pub open spec fn app_specific_info_of(config: IGClientConfig) -> Seq<(Seq<char>, Seq<char>)> {
    seq![
        ("app_version"@, "148.0.0.33.121"@),
        ("X-IG-Capabilities"@, config.device.capabilities@),
        ("everclear_subscriptions"@, everclear_subscriptions()),
        ("User-Agent"@, config.device.user_agent@),
        ("Accept-Language"@, "en-US"@),
        ("platform"@, "android"@),
        ("ig_mqtt_route"@, "django"@),
        ("pubsub_msg_type_blacklist"@, "direct, typing_type"@),
        ("auth_cache_enabled"@, "0"@),
    ]
}

/// The realtime subscriptions announced in `everclear_subscriptions`.
pub open spec fn everclear_subscriptions() -> Seq<char> {
    "{\"inapp_notification_subscribe_comment\":\"17899377895239777\",\"inapp_notification_subscribe_comment_mention_and_reply\":\"17899377895239777\",\"video_call_participant_state_delivery\":\"17977239895057311\",\"presence_subscribe\":\"17846944882223835\"}"@
}

/// The topics the client subscribes to on connecting.
pub open spec fn subscribe_topics_list() -> Seq<i32> {
    seq![88i32, 135i32, 149i32, 150i32, 133i32, 146i32]
}

/// The fields of the CONNECT payload and of its client information.
#[derive(Debug)]
pub struct ConnectPayloadValues {
    pub client_identifier: String,
    pub user_id: i64,
    pub user_agent: String,
    pub client_capabilities: i64,
    pub endpoint_capabilities: i64,
    pub publish_format: i32,
    pub no_automatic_foreground: bool,
    pub make_user_available_in_foreground: bool,
    pub device_id: String,
    pub is_initially_foreground: bool,
    pub network_type: i32,
    pub network_subtype: i32,
    pub client_mqtt_session_id: i64,
    pub subscribe_topics: Vec<i32>,
    pub client_type: String,
    pub app_id: i64,
    pub device_secret: String,
    pub client_stack: i8,
    pub password: String,
    pub app_specific_info: Vec<(String, String)>,
}

impl ConnectPayloadValues {
    /// The CONNECT payload of a client in the given configuration at the
    /// given time (milliseconds since the UNIX epoch): the client
    /// identifier is the first 20 bytes of the Android ID, the user is the
    /// client's `pk`, authentication is by the `sessionid` cookie
    /// (`sessionid=<value>`), and the rest are the app's constants. The
    /// Android ID must have a character boundary at byte 20 and the session
    /// must hold a `sessionid` cookie.
    pub fn from_config(ig_client_config: &IGClientConfig, now_millis: i64) -> (v: Self)
        requires
            vstd::utf8::is_char_boundary(
                vstd::utf8::encode_utf8(ig_client_config.device.device_id@),
                20,
            ),
            lookup_cookie(split_cookie_pairs(ig_client_config.cookies_str@), session_cookie_name()) is Found,
        ensures
            vstd::utf8::encode_utf8(v.client_identifier@) == vstd::utf8::encode_utf8(
                ig_client_config.device.device_id@,
            ).take(20),
            v.user_id == ig_client_config.pk,
            v.user_agent@ == ig_client_config.device.user_agent@,
            v.client_capabilities == 183,
            v.endpoint_capabilities == 0,
            v.publish_format == 1,
            !v.no_automatic_foreground,
            v.make_user_available_in_foreground,
            v.device_id@ == ig_client_config.device.device_id@,
            v.is_initially_foreground,
            v.network_type == 1,
            v.network_subtype == 0,
            v.client_mqtt_session_id == now_millis,
            v.subscribe_topics@ == subscribe_topics_list(),
            v.client_type@ == "cookie_auth"@,
            v.app_id == 567067343352427,
            v.device_secret@ == Seq::<char>::empty(),
            v.client_stack == 3,
            v.password@ == "sessionid="@ + session_id_of(*ig_client_config),
            v.app_specific_info@.map_values(|h: (String, String)| (h.0@, h.1@))
                == app_specific_info_of(*ig_client_config),
    {
        let (identifier, _) = ig_client_config.device.device_id.as_str().split_at(20);
        let session_id = match ig_client_config.get_cookie_value("sessionid") {
            Some(value) => value,
            None => String::new(),
        };
        let mut password = "sessionid=".to_owned();
        password.append(session_id.as_str());
        let mut app_specific_info: Vec<(String, String)> = Vec::new();
        app_specific_info.push(("app_version".to_owned(), "148.0.0.33.121".to_owned()));
        app_specific_info.push(
            ("X-IG-Capabilities".to_owned(), ig_client_config.device.capabilities.clone()),
        );
        app_specific_info.push(
            (
                "everclear_subscriptions".to_owned(),
                "{\"inapp_notification_subscribe_comment\":\"17899377895239777\",\"inapp_notification_subscribe_comment_mention_and_reply\":\"17899377895239777\",\"video_call_participant_state_delivery\":\"17977239895057311\",\"presence_subscribe\":\"17846944882223835\"}".to_owned(),
            ),
        );
        app_specific_info.push(("User-Agent".to_owned(), ig_client_config.device.user_agent.clone()));
        app_specific_info.push(("Accept-Language".to_owned(), "en-US".to_owned()));
        app_specific_info.push(("platform".to_owned(), "android".to_owned()));
        app_specific_info.push(("ig_mqtt_route".to_owned(), "django".to_owned()));
        app_specific_info.push(
            ("pubsub_msg_type_blacklist".to_owned(), "direct, typing_type".to_owned()),
        );
        app_specific_info.push(("auth_cache_enabled".to_owned(), "0".to_owned()));
        assert(app_specific_info@.map_values(|h: (String, String)| (h.0@, h.1@))
            =~= app_specific_info_of(*ig_client_config));
        let subscribe_topics: Vec<i32> = vec![88, 135, 149, 150, 133, 146];
        assert(subscribe_topics@ =~= subscribe_topics_list());
        ConnectPayloadValues {
            client_identifier: identifier.to_owned(),
            user_id: ig_client_config.pk,
            user_agent: ig_client_config.device.user_agent.clone(),
            client_capabilities: 183,
            endpoint_capabilities: 0,
            publish_format: 1,
            no_automatic_foreground: false,
            make_user_available_in_foreground: true,
            device_id: ig_client_config.device.device_id.clone(),
            is_initially_foreground: true,
            network_type: 1,
            network_subtype: 0,
            client_mqtt_session_id: now_millis,
            subscribe_topics,
            client_type: "cookie_auth".to_owned(),
            app_id: 567067343352427,
            device_secret: String::new(),
            client_stack: 3,
            password,
            app_specific_info,
        }
    }
}

} // verus!
