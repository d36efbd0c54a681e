use netease_ratui::dto::{LoginQrKeyResp, SongUrlItem, SongUrlResp, UserAccountResp, AccountInfo, ProfileInfo};
use netease_ratui::netease_actor::{account_event, failure_event, qr_key_event, song_url_event, NeteaseEvent};

#[test]
fn replies_become_events() {
    match qr_key_event(3, LoginQrKeyResp { unikey: Some("k".to_string()), data: None }) {
        NeteaseEvent::LoginQrKey { req_id, unikey } => {
            assert_eq!(req_id, 3);
            assert_eq!(unikey, "k");
        }
        _ => panic!("expected a key"),
    }
    match qr_key_event(3, LoginQrKeyResp { unikey: None, data: None }) {
        NeteaseEvent::Error { req_id, message } => {
            assert_eq!(req_id, 3);
            assert_eq!(message, "缺少字段: unikey");
        }
        _ => panic!("expected an error"),
    }
    match song_url_event(4, SongUrlResp { data: vec![] }) {
        NeteaseEvent::Error { message, .. } => assert_eq!(message, "响应为空"),
        _ => panic!("expected an error"),
    }
    match song_url_event(4, SongUrlResp { data: vec![SongUrlItem { id: 1, url: Some("u".to_string()) }] }) {
        NeteaseEvent::SongUrl { song_url, .. } => assert_eq!(song_url.url, "u"),
        _ => panic!("expected a url"),
    }
    match account_event(5, UserAccountResp { account: Some(AccountInfo { id: 9 }), profile: None }) {
        NeteaseEvent::Error { message, .. } => assert_eq!(message, "缺少字段: profile"),
        _ => panic!("expected an error"),
    }
    match account_event(5, UserAccountResp {
        account: Some(AccountInfo { id: 9 }),
        profile: Some(ProfileInfo { nickname: "n".to_string() }),
    }) {
        NeteaseEvent::Account { account, .. } => {
            assert_eq!(account.uid, 9);
            assert_eq!(account.nickname, "n");
        }
        _ => panic!("expected an account"),
    }
    match failure_event(6, "boom".to_string()) {
        NeteaseEvent::Error { req_id, message } => {
            assert_eq!(req_id, 6);
            assert_eq!(message, "boom");
        }
        _ => panic!("expected an error"),
    }
}
