use vortex::config::{
    check_listen_ip, preflight_checks, split_listen_ips, ConfigError, IpAddress, ListenIp,
};
use vortex::management::{authorize, get_info, not_found_reply, ApiError, MediaKind, ProduceType};
use vortex::packets::ServerError;
use vortex::text::split_text;
use vortex::ws_error::{WSCloseType, WSError, WSErrorType};

#[test]
fn api_error_codes() {
    assert_eq!(ApiError::Unauthorized.code(), 401);
    assert_eq!(ApiError::InternalServerError.code(), 500);
    assert_eq!(ApiError::RoomNotFound("r".to_string()).code(), 404);
    assert_eq!(ApiError::UserNotFound("u".to_string()).code(), 404);
    assert_eq!(ApiError::RoomAlreadyExists("r".to_string()).code(), 409);
    assert_eq!(ApiError::UserAlreadyExists("u".to_string()).code(), 409);
}

#[test]
fn api_error_replies() {
    let r = ApiError::RoomAlreadyExists("r1".to_string()).reply();
    assert_eq!(r.code, 409);
    assert_eq!(r.error, "RoomAlreadyExists");
    assert_eq!(r.message.as_deref(), Some("Room with ID r1 already exists"));
    let r = ApiError::InternalServerError.reply();
    assert_eq!(r.error, "InternalServerError");
    assert_eq!(r.message, None);
    assert_eq!(ApiError::Unauthorized.to_string(), "Invalid management token");
    assert_eq!(ApiError::UserNotFound("x".to_string()).to_string(), "User with ID x not found");
    let nf = not_found_reply();
    assert_eq!((nf.code, nf.error), (404, "NotFound"));
}

#[test]
fn management_token_is_required() {
    assert!(authorize(Some("secret"), "secret").is_ok());
    assert!(matches!(authorize(Some("other"), "secret"), Err(ApiError::Unauthorized)));
    assert!(matches!(authorize(None, "secret"), Err(ApiError::Unauthorized)));
}

#[test]
fn produce_types() {
    assert_eq!(ProduceType::ScreenshareAudio.into_kind(), MediaKind::Audio);
    assert_eq!(ProduceType::ScreenshareVideo.into_kind(), MediaKind::Video);
    assert_eq!(ProduceType::from_str("audio"), Ok(ProduceType::Audio));
    assert_eq!(ProduceType::from_str("video"), Err(()));
}

#[test]
fn info_reports_features() {
    let info = get_info(true, "wss://example".to_string());
    assert!(!info.features.rtp);
    assert_eq!(info.ws, "wss://example");
    assert_eq!(info.vortex, "0.1.0");
    assert!(get_info(false, String::new()).features.rtp);
}

#[test]
fn ws_errors() {
    let e = WSError::new(Some(3), "StartConsume", WSErrorType::ConsumerNotFound("c1".to_string()));
    assert_eq!(e.id, Some(3));
    assert_eq!(e.command_type, "StartConsume");
    assert_eq!(e.error, "ConsumerNotFound");
    assert_eq!(e.message, "Consumer with ID c1 doesn't exist");
    let e = WSError::new(None, "StopProduce", WSErrorType::ProducerNotFound);
    assert_eq!(e.message, "Producer doesn't exist");
    assert_eq!(WSCloseType::Unauthorized.code(), 4001);
    assert_eq!(WSCloseType::InvalidData.code(), 1003);
    assert_eq!(WSCloseType::ServerError.code(), 1011);
    assert_eq!(WSCloseType::Kicked.to_string(), "You have been kicked!");
}

#[test]
fn server_error_keys() {
    assert_eq!(ServerError::RoomNotFound.as_str(), "RoomNotFound");
    assert_eq!(ServerError::TrackNotFound.to_string(), "TrackNotFound");
    assert_eq!(ServerError::NotConnected.as_str(), "NotConnected");
    assert_eq!(ServerError::AlreadyConnected.description(), "Already connected to a room!");
}

#[test]
fn split_keeps_empty_pieces() {
    assert_eq!(split_text("a;b;;c", ';'), vec!["a", "b", "", "c"]);
    assert_eq!(split_text("", ';'), vec![""]);
    assert_eq!(split_text("abc", ';'), vec!["abc"]);
    assert_eq!(split_text(";", ';'), vec!["", ""]);
}

#[test]
fn listen_ip_list_is_split() {
    let pairs = split_listen_ips("0.0.0.0,1.2.3.4;10.0.0.1");
    assert_eq!(
        pairs,
        vec![
            ("0.0.0.0".to_string(), Some("1.2.3.4".to_string())),
            ("10.0.0.1".to_string(), None),
        ]
    );
}

#[test]
fn listen_ip_rules() {
    let any = IpAddress::V4([0, 0, 0, 0]);
    let public = IpAddress::V4([1, 2, 3, 4]);
    assert_eq!(check_listen_ip(any, None), Err(ConfigError::AnnouncementRequired));
    assert_eq!(check_listen_ip(public, Some(any)), Err(ConfigError::UnspecifiedAnnouncement));
    assert_eq!(
        check_listen_ip(any, Some(public)),
        Ok(ListenIp { ip: any, announced_ip: Some(public) })
    );
    assert!(IpAddress::V6([0; 8]).is_unspecified());
    assert!(!IpAddress::V6([0, 0, 0, 0, 0, 0, 0, 1]).is_unspecified());
}

#[test]
fn preflight_needs_required_values() {
    let ip = ListenIp { ip: IpAddress::V4([10, 0, 0, 1]), announced_ip: None };
    let url = Some("ws://x".to_string());
    let token = Some("t".to_string());
    assert_eq!(preflight_checks(&None, &token, &Some(vec![ip])), Err(ConfigError::MissingWsUrl));
    assert_eq!(preflight_checks(&url, &None, &Some(vec![ip])), Err(ConfigError::MissingManageToken));
    assert_eq!(preflight_checks(&url, &token, &None), Err(ConfigError::MissingRtcIps));
    assert_eq!(preflight_checks(&url, &token, &Some(vec![])), Err(ConfigError::NoListenIp));
    assert_eq!(preflight_checks(&url, &token, &Some(vec![ip])), Ok(()));
}
