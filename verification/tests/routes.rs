use confhub::auth::admin_jwt::{AdminClaims, SESSION_DAYS};
use confhub::auth::admin_login::AdminLoginGuard;
use confhub::auth::conf_guard::ConferenceManageGuard;
use confhub::auth::pwd::verify_password;
use confhub::database::models::admin::Admin;
use confhub::database::models::conference::Conference;
use confhub::http::{read_result, write_status, DbError, Status};
use confhub::routes::admin::{login, CreateAdmin, EditAdminPassword};
use confhub::routes::announcements::{deletion_target, AnnouncementForm};
use confhub::routes::conferences::{initial_admins, managed_scope, public_summaries, ConferenceScope, UpdateConference};
use confhub::time::{Timestamp, MAX_TIMESTAMP};

fn conference(id: i32, title: &str, admins: Vec<i32>) -> Conference {
    Conference {
        id,
        title: title.to_string(),
        info: "about".to_string(),
        password: Some("old".to_string()),
        start_ts: Timestamp { secs: 5, nanos: 7 },
        end_ts: Timestamp { secs: 6, nanos: 0 },
        top_left_lat_bits: 0,
        top_left_lon_bits: 0,
        width_in_tiles: 1,
        height_in_tiles: 1,
        admins,
    }
}

fn guard(superuser: bool) -> AdminLoginGuard {
    AdminLoginGuard(Admin { id: 8, username: "u".into(), password_hash: String::new(), session_version: 3, superuser })
}

fn form(start_ts: u64, end_ts: u64, add: Vec<i32>, remove: Vec<i32>) -> UpdateConference {
    UpdateConference {
        title: "New".to_string(),
        password: None,
        start_ts,
        end_ts,
        top_left_lat_bits: 51.5f64.to_bits(),
        top_left_lon_bits: (-0.12f64).to_bits(),
        width_in_tiles: 10,
        height_in_tiles: -2,
        add_admins: add,
        remove_admins: remove,
    }
}

#[test]
fn db_results_become_statuses() {
    assert_eq!(write_status(&Ok::<(), DbError>(())), Status::Okay);
    assert_eq!(write_status(&Err::<(), DbError>(DbError::Other)), Status::InternalServerError);
    assert_eq!(write_status(&Err::<(), DbError>(DbError::RowNotFound)), Status::InternalServerError);
    assert_eq!(read_result(Ok::<i32, DbError>(3)), Ok(3));
    assert_eq!(read_result(Err::<i32, DbError>(DbError::RowNotFound)), Err(Status::InternalServerError));
}

#[test]
fn login_issues_a_token_for_the_admin() {
    let token = login(&guard(true), b"k").unwrap();
    let text = AdminClaims::decode_token(&token, b"k").unwrap();
    assert!(text.contains(r#""id":8,"superuser":true,"session_version":3}"#));
    let exp: usize = text[7..text.find(',').unwrap()].parse().unwrap();
    let now = std::time::SystemTime::now().duration_since(std::time::UNIX_EPOCH).unwrap().as_secs() as usize;
    assert!(exp + 5 >= now + 86_400 * SESSION_DAYS as usize);
}

#[test]
fn only_superusers_create_superusers() {
    let f = CreateAdmin { username: "n".into(), password: "pw".into(), superuser: true };
    assert!(matches!(f.authorize(&guard(false)), Err(Status::Forbidden)));
    let h = f.authorize(&guard(true)).unwrap();
    assert!(matches!(verify_password("pw", &h), Ok(true)));
}

#[test]
fn ordinary_admins_create_ordinary_admins() {
    let f = CreateAdmin { username: "n".into(), password: "pw".into(), superuser: false };
    let h = f.authorize(&guard(false)).unwrap();
    assert!(matches!(verify_password("pw", &h), Ok(true)));
}

#[test]
fn password_change_hashes_the_new_password() {
    let h = EditAdminPassword { new_password: "fresh".into() }.new_hash().unwrap();
    assert!(matches!(verify_password("fresh", &h), Ok(true)));
}

fn manage_guard() -> ConferenceManageGuard {
    ConferenceManageGuard {
        conference: conference(21, "c", vec![8]),
        admin: AdminClaims { exp: 0, id: 8, superuser: false, session_version: 0 },
    }
}

#[test]
fn announcements_are_scoped_to_the_managed_conference() {
    let g = manage_guard();
    let a = AnnouncementForm { title: "t".into(), content: "c".into() }.post(&g);
    assert_eq!((a.conference_id, a.posted_by, a.title.as_str(), a.content.as_str()), (21, 8, "t", "c"));
    let e = AnnouncementForm { title: "t2".into(), content: "c2".into() }.edit(&g, 5);
    assert_eq!((e.id, e.conference_id, e.title.as_str(), e.content.as_str()), (5, 21, "t2", "c2"));
    assert_eq!(deletion_target(&g, 6), (6, 21));
}

#[test]
fn conference_listings() {
    let confs = vec![conference(1, "a", vec![]), conference(2, "b", vec![])];
    assert_eq!(public_summaries(&confs), vec![(1, "a".to_string()), (2, "b".to_string())]);
    assert!(public_summaries(&vec![]).is_empty());
    let su = AdminClaims { exp: 0, id: 4, superuser: true, session_version: 0 };
    let plain = AdminClaims { exp: 0, id: 4, superuser: false, session_version: 0 };
    assert_eq!(managed_scope(&su), ConferenceScope::All);
    assert_eq!(managed_scope(&plain), ConferenceScope::ManagedBy(4));
    assert_eq!(initial_admins(&plain), vec![4]);
}

#[test]
fn update_replaces_fields_and_admins() {
    let c = form(1_700_000_000, 1_700_086_400, vec![9, 1], vec![2, 7])
        .apply(conference(3, "old", vec![1, 2, 3, 2]))
        .unwrap();
    assert_eq!(c.id, 3);
    assert_eq!(c.title, "New");
    assert_eq!(c.info, "about");
    assert_eq!(c.password, None);
    assert_eq!(c.start_ts, Timestamp { secs: 1_700_000_000, nanos: 0 });
    assert_eq!(c.end_ts, Timestamp { secs: 1_700_086_400, nanos: 0 });
    assert_eq!(f64::from_bits(c.top_left_lat_bits), 51.5);
    assert_eq!(f64::from_bits(c.top_left_lon_bits), -0.12);
    assert_eq!((c.width_in_tiles, c.height_in_tiles), (10, -2));
    assert_eq!(c.admins, vec![1, 3, 9, 1]);
}

#[test]
fn update_rejects_timestamps_out_of_range() {
    let r = form(MAX_TIMESTAMP as u64 + 1, 0, vec![], vec![]).apply(conference(3, "old", vec![]));
    assert!(matches!(r, Err(Status::InternalServerError)));
    let r = form(0, u64::MAX, vec![], vec![]).apply(conference(3, "old", vec![]));
    assert!(matches!(r, Ok(c) if c.end_ts.secs == -1));
    let r = form(0, MAX_TIMESTAMP as u64, vec![], vec![]).apply(conference(3, "old", vec![]));
    assert!(matches!(r, Ok(c) if c.end_ts.secs == MAX_TIMESTAMP));
}
