use appwrite::ids::{DocumentId, FileId, HasId, MembershipId, TeamId, UserId, UNIQUE_ID};
use appwrite::locale::ContinentCode;
use appwrite::models::{DataStatus, FileSize, FileSizeExt, Index, ListKey};
use appwrite::permission::{Permission, Role, UserStatus};
use appwrite::query::{Query, QueryAttr, QueryExt, QueryValue};
use appwrite::runtime::ExecutionRuntime;
use appwrite::search::{CursorDirection, Order, SearchPayload, SearchQueryPayload};

#[test]
fn ids_wrap_text() {
    assert_eq!(FileId::new("f1".to_string()).to_string(), "f1");
    assert_eq!(FileId::unique().0, "unique()");
    assert_eq!(UNIQUE_ID, "unique()");
    assert_eq!(UserId::new("u".to_string()).id(), "u");
    assert_eq!(TeamId::unique(), TeamId::new("unique()".to_string()));
}

#[test]
fn role_text() {
    assert_eq!(Role::Any.to_string(), "any");
    assert_eq!(Role::Guests.to_string(), "guests");
    assert_eq!(Role::Users(None).to_string(), "users");
    assert_eq!(Role::Users(Some(UserStatus::Verified)).to_string(), "users/verified");
    let user = Role::User((UserId::new("u1".to_string()), Some(UserStatus::Unverified)));
    assert_eq!(user.to_string(), "user:u1/unverified");
    let team = Role::Team((TeamId::new("t1".to_string()), Some(Box::new(Role::Member(MembershipId::new("m1".to_string()))))));
    assert_eq!(team.to_string(), "team:t1/member:m1");
    assert_eq!(Role::Team((TeamId::new("t1".to_string()), None)).to_string(), "team:t1");
}

#[test]
fn role_parse() {
    assert_eq!(Role::parse("any").unwrap().to_string(), "any");
    assert_eq!(Role::parse("\"any\"").unwrap().to_string(), "any");
    assert_eq!(Role::parse("users/unverified").unwrap().to_string(), "users/unverified");
    assert_eq!(Role::parse("user:u1/verified").unwrap().to_string(), "user:u1/verified");
    assert_eq!(Role::parse("user:u1/other").unwrap().to_string(), "user:u1");
    assert_eq!(Role::parse("team:t1/users").unwrap().to_string(), "team:t1/users");
    assert_eq!(Role::parse("member:m1").unwrap().to_string(), "member:m1");
    assert!(Role::parse("user").is_err());
    assert!(Role::parse("team:t1/nobody").is_err());
    assert!(Role::parse("users/other").is_err());
    assert!(Role::parse("").is_err());
}

#[test]
fn permission_text_and_parse() {
    let perm = Permission::Read(Role::Any);
    assert_eq!(perm.to_string(), "read(\"any\")");
    let back = Permission::parse(&perm.to_string()).unwrap();
    assert!(matches!(back, Permission::Read(Role::Any)));
    let p = Permission::parse("update(\"team:t1/guests\")").unwrap();
    assert_eq!(p.to_string(), "update(\"team:t1/guests\")");
    assert!(Permission::parse("read").is_err());
    assert!(Permission::parse("list(\"any\")").is_err());
    assert!(Permission::parse("read((\"any\")").is_err());
    assert_eq!(Permission::Delete(Role::Guests).to_string(), "delete(\"guests\")");
}

#[test]
fn query_text() {
    assert_eq!(QueryAttr::new("name").to_string(), "\"name\"");
    assert_eq!(QueryValue::new_string("a").to_string(), "[\"a\"]");
    assert_eq!(QueryValue::new_primitive(-5i32).to_string(), "[-5]");
    assert_eq!(QueryValue::new_primitive_array(&[1u64, 20, 300]).to_string(), "[1,20,300]");
    let empty: [u8; 0] = [];
    assert_eq!(QueryValue::new_primitive_array(&empty).to_string(), "[]");
    let names = vec!["a".to_string(), "b".to_string()];
    assert_eq!(QueryValue::new_string_array(&names).to_string(), "[\"a\",\"b\"]");
    let q = "age".greater_than(QueryValue::new_primitive(18u8));
    assert!(matches!(q, Query::GreaterThan(_, _)));
    assert_eq!(q.to_string(), "greaterThan(\"age\",[18])");
    assert_eq!("name".to_string().equal(QueryValue::new_string("x")).to_string(), "equal(\"name\",[\"x\"])");
    assert_eq!("name".order_desc().to_string(), "orderDesc(\"name\")");
    assert_eq!(Query::Limit(25).to_string(), "limit(25)");
    assert_eq!(Query::CursorAfter(DocumentId::new("d1".to_string())).to_string(), "cursorAfter(\"d1\")");
}

#[test]
fn continent_codes() {
    assert_eq!(ContinentCode::EU.get_full_name(), "Europe");
    assert_eq!(ContinentCode::SA.get_full_name(), "South America");
    assert_eq!(ContinentCode::parse("NA"), Ok(ContinentCode::NA));
    assert_eq!(ContinentCode::parse("XX"), Err(()));
    assert_eq!(ContinentCode::OC.as_str(), "OC");
}

#[test]
fn runtimes() {
    assert_eq!(ExecutionRuntime::Python310.to_string(), "python-3.10");
    assert!(matches!(ExecutionRuntime::parse("node-16.0"), ExecutionRuntime::Node160));
    assert!(matches!(ExecutionRuntime::parse("zig-0.1"), ExecutionRuntime::Other(ref s) if s == "zig-0.1"));
    assert!(matches!(ExecutionRuntime::default(), ExecutionRuntime::Node160));
    assert_eq!(ExecutionRuntime::list_key(), "runtimes");
    assert_eq!(Index::list_key(), "indexes");
}

#[test]
fn search_params() {
    let payload = SearchPayload {
        seatch: Some("cat".to_string()),
        limit: Some(10),
        offset: None,
        cursor: Some(FileId::new("f1".to_string())),
        cursor_direction: Some(CursorDirection::After),
        order_type: Some(Order::Desc),
    };
    let expected = vec![
        ("seatch".to_string(), "cat".to_string()),
        ("limit".to_string(), "10".to_string()),
        ("cursor".to_string(), "f1".to_string()),
        ("cursor_direction".to_string(), "after".to_string()),
        ("order_type".to_string(), "desc".to_string()),
    ];
    assert_eq!(payload.serialize_params(), expected);
    let empty: SearchQueryPayload<FileId> = SearchQueryPayload::default();
    assert!(empty.serialize_params().is_empty());
    let q = SearchQueryPayload::<FileId> {
        order_attribute: Some("name".to_string()),
        order_type: Some(Order::Asc),
        ..Default::default()
    };
    assert_eq!(
        q.serialize_params(),
        vec![
            ("order_attribute".to_string(), "name".to_string()),
            ("order_type".to_string(), "asc".to_string()),
        ]
    );
}

#[test]
fn file_sizes() {
    assert_eq!(3u8.kb(), FileSize(3072));
    assert_eq!(2u32.mb(), FileSize(2 * 1024 * 1024));
    assert_eq!(1usize.gb(), FileSize(1024 * 1024 * 1024));
    assert_eq!(42u16.bytes(), 42);
    assert_eq!(DataStatus::default(), DataStatus::Available);
}

#[test]
fn permission_round_trip_and_equality() {
    let perm = Permission::Read(Role::Any);
    let text = perm.to_string();
    assert_eq!(text, "read(\"any\")");
    let back = Permission::parse(&text).unwrap();
    assert_eq!(back, perm);
    assert_ne!(Permission::Write(Role::Any), perm);
    let team = Role::Team((TeamId::new("t".to_string()), Some(Box::new(Role::Users(Some(UserStatus::Verified))))));
    assert_eq!(team.clone(), team);
    assert_ne!(team, Role::Team((TeamId::new("t".to_string()), None)));
    assert_eq!(Role::parse("team:t/users/verified"), Ok(team));
    assert_eq!(Permission::Update(Role::Guests).clone(), Permission::Update(Role::Guests));
    assert_eq!(UserStatus::Unverified.to_string(), "unverified");
    assert_eq!(UserStatus::parse("verified"), Some(UserStatus::Verified));
    assert_eq!(UserStatus::parse("other"), None);
}

#[test]
fn signed_file_sizes() {
    assert_eq!(5i32.kb(), FileSize(5 * 1024));
    assert_eq!(1i64.gb(), FileSize(1 << 30));
    assert_eq!(7isize.bytes(), 7);
}
