use realtors::pagination::page_offset;
use realtors::realtor::{Realtor, RealtorModel};
use realtors::store::{row_to_delete, RealtorStore, RepoError};

fn input(name: &str, email: &str, phone: &str) -> Realtor {
    Realtor {
        full_name: name.to_string(),
        email: email.to_string(),
        photo: None,
        phone: phone.to_string(),
        is_mvp: None,
        description: None,
    }
}

fn fill(db: &mut RealtorStore, n: usize) -> Vec<RealtorModel> {
    let mut out = Vec::new();
    for i in 0..n {
        let r = input(&format!("Agent {}", i), &format!("agent{}@x.com", i), "555-0100");
        out.push(Realtor::add_realtor(db, r).expect("create"));
    }
    out
}

fn is_url_safe(c: char) -> bool {
    c.is_ascii_alphanumeric() || c == '_' || c == '-'
}

#[test]
fn create_returns_id_and_echoes_fields() {
    let mut db = RealtorStore::new();
    let r = Realtor {
        full_name: "Jane Doe".to_string(),
        email: "jane@x.com".to_string(),
        photo: Some("https://img/jane.png".to_string()),
        phone: "555-0100".to_string(),
        is_mvp: Some(true),
        description: Some("top seller".to_string()),
    };
    let m = Realtor::add_realtor(&mut db, r).unwrap();
    assert_eq!(m.id.chars().count(), 21);
    assert!(m.id.chars().all(is_url_safe));
    assert_eq!(m.full_name, "Jane Doe");
    assert_eq!(m.email, "jane@x.com");
    assert_eq!(m.phone, "555-0100");
    assert_eq!(m.photo, Some("https://img/jane.png".to_string()));
    assert_eq!(m.is_mvp, Some(true));
    assert_eq!(m.description, None);
    assert_eq!(db.len(), 1);
}

#[test]
fn repeated_creates_get_distinct_ids() {
    let mut db = RealtorStore::new();
    let rows = fill(&mut db, 200);
    for i in 0..rows.len() {
        for j in (i + 1)..rows.len() {
            assert_ne!(rows[i].id, rows[j].id);
        }
    }
}

#[test]
fn create_with_blank_required_field_fails() {
    let mut db = RealtorStore::new();
    assert_eq!(Realtor::add_realtor(&mut db, input("", "a@x.com", "1")), Err(RepoError::MissingField));
    assert_eq!(Realtor::add_realtor(&mut db, input("A", "a@x.com", "")), Err(RepoError::MissingField));
    assert_eq!(db.len(), 0);
}

#[test]
fn create_with_blank_email_is_stored() {
    let mut db = RealtorStore::new();
    let m = Realtor::add_realtor(&mut db, input("A", "", "1")).unwrap();
    assert_eq!(m.email, "");
    assert_eq!(db.len(), 1);
}

#[test]
fn row_to_insert_checks_fields_then_draws_id() {
    assert_eq!(input("", "a@x.com", "1").row_to_insert(), Err(RepoError::MissingField));
    let m = input("A", "a@x.com", "1").row_to_insert().unwrap();
    assert_eq!(m.id.chars().count(), 21);
    assert!(m.id.chars().all(is_url_safe));
    assert_eq!((m.full_name.as_str(), m.email.as_str(), m.phone.as_str()), ("A", "a@x.com", "1"));
    assert_eq!(m.description, None);
}

#[test]
fn row_to_delete_follows_lookup() {
    let m = input("A", "a@x.com", "1").into_model("k".to_string());
    assert_eq!(row_to_delete(Some(m.clone())), Ok(m));
    assert_eq!(row_to_delete(None), Err(RepoError::NotFound));
}

#[test]
fn full_listing_holds_created_row_once() {
    let mut db = RealtorStore::new();
    fill(&mut db, 7);
    let m = Realtor::add_realtor(&mut db, input("Jane Doe", "jane@x.com", "555-0100")).unwrap();
    let mut all = Vec::new();
    for p in 1..=3 {
        all.extend(Realtor::fetch_all(&db, p, 3).unwrap());
    }
    assert_eq!(all.len(), 8);
    assert_eq!(all.iter().filter(|x| x.id == m.id).count(), 1);
    assert_eq!(all[7], m);
}

#[test]
fn insert_with_taken_id_fails() {
    let mut db = RealtorStore::new();
    let m = db.insert_with_id(input("A", "a@x.com", "1"), "abc".to_string()).unwrap();
    assert_eq!(m.id, "abc");
    assert_eq!(
        db.insert_with_id(input("B", "b@x.com", "2"), "abc".to_string()),
        Err(RepoError::DuplicateId)
    );
    assert_eq!(
        db.insert_with_id(input("B", "b@x.com", "2"), String::new()),
        Err(RepoError::MissingField)
    );
    assert_eq!(db.len(), 1);
    assert!(db.contains_id(&"abc".to_string()));
    assert!(!db.contains_id(&"abd".to_string()));
}

#[test]
fn pages_of_fifteen_rows() {
    let mut db = RealtorStore::new();
    let rows = fill(&mut db, 15);
    let p1 = Realtor::fetch_all(&db, 1, 10).unwrap();
    let p2 = Realtor::fetch_all(&db, 2, 10).unwrap();
    let p3 = Realtor::fetch_all(&db, 3, 10).unwrap();
    assert_eq!(p1.len(), 10);
    assert_eq!(p2.len(), 5);
    assert!(p3.is_empty());
    assert_eq!(p1[..], rows[..10]);
    assert_eq!(p2[..], rows[10..]);
}

#[test]
fn page_beyond_data_is_empty() {
    let db = RealtorStore::new();
    assert_eq!(Realtor::fetch_all(&db, 1, 10), Ok(Vec::new()));
    assert_eq!(Realtor::fetch_all(&db, 1_000_000, 10), Ok(Vec::new()));
}

#[test]
fn unservable_pages_fail() {
    let mut db = RealtorStore::new();
    fill(&mut db, 3);
    assert_eq!(Realtor::fetch_all(&db, 0, 10), Err(RepoError::InvalidPage));
    assert_eq!(Realtor::fetch_all(&db, 1, 0), Err(RepoError::InvalidPage));
    assert_eq!(Realtor::fetch_all(&db, u64::MAX, 2), Err(RepoError::InvalidPage));
}

#[test]
fn page_offsets() {
    assert_eq!(page_offset(1, 10), Some(0));
    assert_eq!(page_offset(3, 10), Some(20));
    assert_eq!(page_offset(0, 10), None);
    assert_eq!(page_offset(2, 0), None);
    assert_eq!(page_offset(u64::MAX, 1), Some(u64::MAX - 1));
    assert_eq!(page_offset(u64::MAX, 2), None);
}

#[test]
fn delete_existing_email_removes_one() {
    let mut db = RealtorStore::new();
    let rows = fill(&mut db, 4);
    assert_eq!(Realtor::delete_realtor_by_email(&mut db, "agent2@x.com".to_string()), Ok("OK".to_string()));
    assert_eq!(db.len(), 3);
    let left = Realtor::fetch_all(&db, 1, 10).unwrap();
    assert!(left.iter().all(|m| m.email != "agent2@x.com" && m.id != rows[2].id));
    assert_eq!(left, vec![rows[0].clone(), rows[1].clone(), rows[3].clone()]);
}

#[test]
fn delete_missing_email_fails() {
    let mut db = RealtorStore::new();
    fill(&mut db, 2);
    assert_eq!(Realtor::delete_realtor_by_email(&mut db, "nobody@x.com".to_string()), Err(RepoError::NotFound));
    assert_eq!(Realtor::delete_realtor_by_email(&mut db, "AGENT0@x.com".to_string()), Err(RepoError::NotFound));
    assert_eq!(db.len(), 2);
}

#[test]
fn delete_duplicate_email_removes_first() {
    let mut db = RealtorStore::new();
    let a = Realtor::add_realtor(&mut db, input("First", "dup@x.com", "1")).unwrap();
    let b = Realtor::add_realtor(&mut db, input("Second", "dup@x.com", "2")).unwrap();
    assert!(Realtor::delete_realtor_by_email(&mut db, "dup@x.com".to_string()).is_ok());
    assert_eq!(Realtor::fetch_all(&db, 1, 10).unwrap(), vec![b.clone()]);
    assert_ne!(a.id, b.id);
    assert!(Realtor::delete_realtor_by_email(&mut db, "dup@x.com".to_string()).is_ok());
    assert_eq!(db.len(), 0);
    assert_eq!(Realtor::delete_realtor_by_email(&mut db, "dup@x.com".to_string()), Err(RepoError::NotFound));
}

#[test]
fn created_row_round_trips_through_listing() {
    let mut db = RealtorStore::new();
    fill(&mut db, 12);
    let r = Realtor {
        full_name: "Jane Doe".to_string(),
        email: "jane@x.com".to_string(),
        photo: Some("p.png".to_string()),
        phone: "555-0100".to_string(),
        is_mvp: Some(false),
        description: Some("not stored".to_string()),
    };
    let m = Realtor::add_realtor(&mut db, r).unwrap();
    let page = Realtor::fetch_all(&db, 3, 5).unwrap();
    assert_eq!(page.len(), 3);
    assert_eq!(page[2], m);
}

#[test]
fn model_keeps_all_but_description() {
    let r = Realtor {
        full_name: "A".to_string(),
        email: "a@x.com".to_string(),
        photo: None,
        phone: "1".to_string(),
        is_mvp: Some(true),
        description: Some("d".to_string()),
    };
    assert!(r.has_required_fields());
    let m = r.clone().into_model("id1".to_string());
    assert_eq!(
        m,
        RealtorModel {
            id: "id1".to_string(),
            full_name: "A".to_string(),
            email: "a@x.com".to_string(),
            photo: None,
            phone: "1".to_string(),
            is_mvp: Some(true),
            description: None,
        }
    );
    assert_eq!(m.duplicate(), m);
    let n = r.into_new_model();
    assert_eq!(n.id.chars().count(), 21);
    assert_ne!(n.id, "id1");
}
