use redis_session::codec::{decode_state, encode_state};
use redis_session::cookie::{find_cookie, sign_session_id, verify_session_cookie, SameSite};
use redis_session::resolver::{
    finish_load, finish_update, generate_session_id, plan_update, plan_update_with_id, start_load,
    Change, Fetched, LoadStart, Origin, SessionError, SessionKey, UpdatePlan, Written,
};
use redis_session::session::{RedisSession, StoreAddress, DEFAULT_MAX_AGE, DEFAULT_TTL};
use redis_session::state::SessionState;

const SECRET: [u8; 32] = [7u8; 32];

fn config() -> RedisSession {
    RedisSession::new("127.0.0.1:6379", &SECRET)
}

fn state_of(pairs: &[(&str, &str)]) -> SessionState {
    let mut s = SessionState::new();
    for (k, v) in pairs {
        s.insert(k.to_string(), v.to_string());
    }
    s
}

fn cookie_value(header: &str, name: &str) -> String {
    let prefix = format!("{}=", name);
    assert!(header.starts_with(&prefix));
    header[prefix.len()..].split(';').next().unwrap().to_string()
}

fn is_session_id(s: &str) -> bool {
    s.len() == 32 && s.chars().all(|c| c.is_ascii_alphanumeric())
}

#[test]
fn state_insert_replaces_and_counts() {
    let mut s = SessionState::new();
    assert_eq!(s.len(), 0);
    s.insert("a".to_string(), "1".to_string());
    s.insert("b".to_string(), "2".to_string());
    s.insert("a".to_string(), "3".to_string());
    assert_eq!(s.len(), 2);
    assert_eq!(s.get(&"a".to_string()), Some("3".to_string()));
    assert_eq!(s.get(&"b".to_string()), Some("2".to_string()));
    assert_eq!(s.get(&"c".to_string()), None);
}

#[test]
fn state_round_trips_through_bytes() {
    let s = state_of(&[("user", "42"), ("theme", "dark"), ("empty", "")]);
    let bytes = encode_state(&s).unwrap();
    let back = decode_state(&bytes).unwrap();
    assert_eq!(back.len(), 3);
    assert_eq!(back.get(&"user".to_string()), Some("42".to_string()));
    assert_eq!(back.get(&"theme".to_string()), Some("dark".to_string()));
    assert_eq!(back.get(&"empty".to_string()), Some("".to_string()));
}

#[test]
fn empty_state_round_trips() {
    let bytes = encode_state(&SessionState::new()).unwrap();
    assert_eq!(bytes, b"{}".to_vec());
    assert_eq!(decode_state(&bytes).unwrap().len(), 0);
}

#[test]
fn state_with_quotes_round_trips() {
    let s = state_of(&[("k\"ey", "va\\l\nue"), ("\u{e9}", "\u{1f600}")]);
    let back = decode_state(&encode_state(&s).unwrap()).unwrap();
    assert_eq!(back.len(), 2);
    assert_eq!(back.get(&"k\"ey".to_string()), Some("va\\l\nue".to_string()));
    assert_eq!(back.get(&"\u{e9}".to_string()), Some("\u{1f600}".to_string()));
}

#[test]
fn encoded_state_is_a_json_object() {
    let bytes = encode_state(&state_of(&[("user", "42")])).unwrap();
    assert_eq!(bytes, br#"{"user":"42"}"#.to_vec());
}

#[test]
fn malformed_bytes_do_not_decode() {
    assert!(decode_state(b"not json").is_none());
    assert!(decode_state(b"[1,2]").is_none());
    assert!(decode_state(br#"{"a":1}"#).is_none());
    assert!(decode_state(b"").is_none());
}

#[test]
fn stored_json_decodes() {
    let s = decode_state(br#"{"user":"42","x":"y"}"#).unwrap();
    assert_eq!(s.len(), 2);
    assert_eq!(s.get(&"user".to_string()), Some("42".to_string()));
}

#[test]
fn signed_id_verifies_back() {
    let id = "abcdefghijklmnopqrstuvwxyz012345";
    let signed = sign_session_id(&SECRET, id);
    assert_ne!(signed, id);
    assert!(signed.ends_with(id));
    assert_eq!(verify_session_cookie(&SECRET, &signed), Some(id.to_string()));
}

#[test]
fn signed_id_fails_under_another_secret() {
    let signed = sign_session_id(&SECRET, "someid");
    assert_eq!(verify_session_cookie(&[9u8; 40], &signed), None);
}

#[test]
fn any_single_bit_flip_breaks_the_signature() {
    let id = "Zx9Qw2Er4Ty6Ui8Op0As1Df3Gh5Jk7Lm";
    let signed = sign_session_id(&SECRET, id);
    let bytes = signed.as_bytes().to_vec();
    for i in 0..bytes.len() {
        for bit in 0..7 {
            let mut m = bytes.clone();
            m[i] ^= 1 << bit;
            if let Ok(text) = String::from_utf8(m) {
                if text != signed {
                    assert_eq!(verify_session_cookie(&SECRET, &text), None, "byte {} bit {}", i, bit);
                }
            }
        }
    }
}

#[test]
fn unsigned_value_is_rejected() {
    assert_eq!(verify_session_cookie(&SECRET, "abcdefghijklmnopqrstuvwxyz012345"), None);
    assert_eq!(verify_session_cookie(&SECRET, ""), None);
}

#[test]
fn first_cookie_of_the_name_is_found() {
    let cookies = vec![
        ("other".to_string(), "1".to_string()),
        ("sid".to_string(), "first".to_string()),
        ("sid".to_string(), "second".to_string()),
    ];
    assert_eq!(find_cookie(&cookies, &"sid".to_string()), Some("first".to_string()));
    assert_eq!(find_cookie(&cookies, &"none".to_string()), None);
    assert_eq!(find_cookie(&vec![], &"sid".to_string()), None);
}

#[test]
fn generated_ids_are_32_alphanumerics() {
    let a = generate_session_id();
    let b = generate_session_id();
    assert!(is_session_id(&a));
    assert!(is_session_id(&b));
    assert_ne!(a, b);
}

#[test]
fn defaults_of_the_configuration() {
    let cfg = config();
    assert_eq!(cfg.ttl_value(), DEFAULT_TTL);
    assert_eq!(DEFAULT_TTL, 7200);
    assert_eq!(cfg.cookie_name_ref(), "actix-session");
    assert_eq!(cfg.cookie_path_ref(), "/");
    assert_eq!(cfg.cookie_domain_ref(), &None);
    assert!(!cfg.cookie_secure_value());
    assert_eq!(cfg.cookie_max_age_value(), Some(DEFAULT_MAX_AGE));
    assert_eq!(DEFAULT_MAX_AGE, 7 * 24 * 3600);
    assert_eq!(cfg.cookie_same_site_value(), None);
    assert_eq!(cfg.secret(), &SECRET[..]);
    assert_eq!(cfg.store_address(), &StoreAddress::Single("127.0.0.1:6379".to_string()));
}

#[test]
fn builders_set_each_attribute() {
    let cfg = RedisSession::new_cluster("10.0.0.1:7000", &SECRET)
        .ttl(60)
        .cookie_name("sid")
        .cookie_path("/app")
        .cookie_domain("example.com")
        .cookie_secure(true)
        .cookie_max_age(3600)
        .cookie_same_site(SameSite::Strict);
    assert_eq!(cfg.ttl_value(), 60);
    assert_eq!(cfg.cookie_name_ref(), "sid");
    assert_eq!(cfg.cookie_path_ref(), "/app");
    assert_eq!(cfg.cookie_domain_ref(), &Some("example.com".to_string()));
    assert!(cfg.cookie_secure_value());
    assert_eq!(cfg.cookie_max_age_value(), Some(3600));
    assert_eq!(cfg.cookie_same_site_value(), Some(SameSite::Strict));
    assert_eq!(cfg.store_address(), &StoreAddress::Cluster("10.0.0.1:7000".to_string()));
}

#[test]
fn no_cookie_gives_an_empty_session_without_id() {
    match start_load(&config(), &vec![]) {
        LoadStart::Ready(l) => {
            assert_eq!(l.state.len(), 0);
            assert!(matches!(l.key, SessionKey::Unassigned));
            assert_eq!(l.origin, Origin::NoCookie);
        }
        LoadStart::Fetch(_) => panic!("nothing to fetch"),
    }
}

#[test]
fn bad_signature_is_like_no_cookie() {
    let cookies = vec![("actix-session".to_string(), "forged-value".to_string())];
    match start_load(&config(), &cookies) {
        LoadStart::Ready(l) => {
            assert!(matches!(l.key, SessionKey::Unassigned));
            assert_eq!(l.origin, Origin::NoCookie);
        }
        LoadStart::Fetch(_) => panic!("a forged cookie is not fetched"),
    }
}

#[test]
fn valid_cookie_names_the_id_to_fetch() {
    let signed = sign_session_id(&SECRET, "myid");
    let cookies = vec![
        ("other".to_string(), "x".to_string()),
        ("actix-session".to_string(), signed),
    ];
    match start_load(&config(), &cookies) {
        LoadStart::Fetch(id) => assert_eq!(id, "myid"),
        LoadStart::Ready(_) => panic!("the id should be fetched"),
    }
}

#[test]
fn stored_session_is_loaded() {
    let l = finish_load("myid".to_string(), Fetched::Found(br#"{"user":"42"}"#.to_vec())).unwrap();
    assert_eq!(l.origin, Origin::Stored);
    assert_eq!(l.state.get(&"user".to_string()), Some("42".to_string()));
    assert!(matches!(l.key, SessionKey::Existing(ref id) if id == "myid"));
}

#[test]
fn missing_record_keeps_the_id() {
    let l = finish_load("myid".to_string(), Fetched::Missing).unwrap();
    assert_eq!(l.origin, Origin::Absent);
    assert_eq!(l.state.len(), 0);
    assert!(matches!(l.key, SessionKey::Existing(ref id) if id == "myid"));
}

#[test]
fn corrupt_record_soft_fails_to_empty() {
    let cfg = config();
    let l = finish_load("myid".to_string(), Fetched::Found(b"{broken".to_vec())).unwrap();
    assert_eq!(l.origin, Origin::Malformed);
    assert_eq!(l.state.len(), 0);
    assert!(matches!(plan_update(&cfg, &l.key, &Change::Unchanged), Ok(UpdatePlan::PassThrough)));
}

#[test]
fn failed_read_is_an_error() {
    assert!(matches!(finish_load("myid".to_string(), Fetched::Failed), Err(SessionError::Store)));
}

#[test]
fn unchanged_session_passes_through() {
    let cfg = config();
    let existing = SessionKey::Existing("myid".to_string());
    assert!(matches!(plan_update(&cfg, &existing, &Change::Unchanged), Ok(UpdatePlan::PassThrough)));
    assert!(matches!(plan_update(&cfg, &SessionKey::Unassigned, &Change::Unchanged), Ok(UpdatePlan::PassThrough)));
}

#[test]
fn changed_session_without_id_mints_one() {
    let cfg = config();
    let change = Change::Changed(state_of(&[("k", "v")]));
    match plan_update(&cfg, &SessionKey::Unassigned, &change) {
        Ok(UpdatePlan::Write(w)) => {
            assert!(is_session_id(&w.id));
            assert_eq!(w.ttl, 7200);
            assert_eq!(w.body, br#"{"k":"v"}"#.to_vec());
            let header = w.cookie.clone().unwrap();
            let value = cookie_value(&header, "actix-session");
            assert_eq!(verify_session_cookie(&SECRET, &value), Some(w.id.clone()));
            assert_eq!(finish_update(w, Written::Ack).unwrap(), Some(header));
        }
        _ => panic!("a write is due"),
    }
}

#[test]
fn changed_session_with_id_reuses_it() {
    let cfg = config();
    let change = Change::Changed(state_of(&[("k", "v")]));
    let key = SessionKey::Existing("myid".to_string());
    match plan_update(&cfg, &key, &change) {
        Ok(UpdatePlan::Write(w)) => {
            assert_eq!(w.id, "myid");
            assert_eq!(w.cookie, None);
            assert_eq!(finish_update(w, Written::Ack).unwrap(), None);
        }
        _ => panic!("a write is due"),
    }
}

#[test]
fn failed_write_attaches_no_cookie() {
    let cfg = config();
    let change = Change::Changed(state_of(&[("k", "v")]));
    match plan_update_with_id(&cfg, &SessionKey::Unassigned, &change, "abcdefghijklmnopqrstuvwxyz012345") {
        Ok(UpdatePlan::Write(w)) => {
            assert!(w.cookie.is_some());
            assert!(matches!(finish_update(w, Written::Failed), Err(SessionError::Store)));
        }
        _ => panic!("a write is due"),
    }
}

#[test]
fn cookie_carries_the_configured_attributes() {
    let cfg = config()
        .cookie_name("sid")
        .cookie_domain("example.com")
        .cookie_secure(true)
        .cookie_max_age(60)
        .cookie_same_site(SameSite::Lax);
    let change = Change::Changed(state_of(&[("k", "v")]));
    match plan_update_with_id(&cfg, &SessionKey::Unassigned, &change, "abc") {
        Ok(UpdatePlan::Write(w)) => {
            let header = w.cookie.unwrap();
            assert_eq!(cookie_value(&header, "sid"), sign_session_id(&SECRET, "abc"));
            assert!(header.contains("HttpOnly"));
            assert!(header.contains("Secure"));
            assert!(header.contains("Path=/"));
            assert!(header.contains("Domain=example.com"));
            assert!(header.contains("Max-Age=60"));
            assert!(header.contains("SameSite=Lax"));
        }
        _ => panic!("a write is due"),
    }
}

#[test]
fn end_to_end_new_session() {
    let cfg = config().ttl(7200).cookie_name("sid").cookie_max_age(604800);
    let loaded = match start_load(&cfg, &vec![]) {
        LoadStart::Ready(l) => l,
        LoadStart::Fetch(_) => panic!("no cookie was sent"),
    };
    let mut state = loaded.state;
    state.insert("user".to_string(), "42".to_string());
    match plan_update(&cfg, &loaded.key, &Change::Changed(state)) {
        Ok(UpdatePlan::Write(w)) => {
            assert!(is_session_id(&w.id));
            assert_eq!(w.body, br#"{"user":"42"}"#.to_vec());
            assert_eq!(w.ttl, 7200);
            let id = w.id.clone();
            let header = finish_update(w, Written::Ack).unwrap().unwrap();
            let value = cookie_value(&header, "sid");
            assert_eq!(verify_session_cookie(&SECRET, &value), Some(id));
            assert!(header.contains("Path=/"));
            assert!(header.contains("HttpOnly"));
        }
        _ => panic!("a write is due"),
    }
}
