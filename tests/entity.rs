use reddd::entity::{touch_field, Entity, Key, MutableEntity};
use reddd::fields::{Field, StructData, Style};
use reddd::generate::{plan_entity, plan_mutable_entity, EntityPlan, MutableEntityPlan};
use reddd::time::Timestamp;

fn field(name: &str, ty: &str, attrs: &[&str]) -> Field {
    Field {
        ident: Some(name.to_string()),
        ty: ty.to_string(),
        attrs: attrs.iter().map(|a| a.to_string()).collect(),
    }
}

fn named(fields: Vec<Field>) -> StructData {
    StructData { style: Style::Named, fields }
}

fn some_time() -> Timestamp {
    Timestamp::new(1_431_648_000, 123)
}

struct UserTag;

#[test]
fn entity_auto_test() {
    let data = named(vec![field("id", "u32", &[]), field("created_at", "Timestamp", &[])]);
    let plan = plan_entity(&data).unwrap();
    assert_eq!(plan, EntityPlan { id: 0, created_at: 1 });
    assert_eq!(data.fields[plan.id].ty, "u32");

    struct User {
        id: u32,
        created_at: Timestamp,
    }
    impl Entity for User {
        type Key = u32;
        fn id(&self) -> &u32 {
            &self.id
        }
        fn created_at(&self) -> &Timestamp {
            &self.created_at
        }
    }

    let user = User { id: 42, created_at: some_time() };

    assert_eq!(user.id, *user.id());
    assert_eq!(user.created_at, *user.created_at());
}

#[test]
fn entity_annotated_test() {
    let data = named(vec![
        field("key_field", "Uuid", &["id_field"]),
        field("registered_on", "Timestamp", &["created_at_field"]),
    ]);
    let plan = plan_entity(&data).unwrap();
    assert_eq!(plan, EntityPlan { id: 0, created_at: 1 });
    assert_eq!(data.fields[plan.id].ty, "Uuid");
    assert_eq!(data.fields[plan.created_at].ident.as_deref(), Some("registered_on"));

    struct User {
        key_field: u128,
        registered_on: Timestamp,
    }
    impl Entity for User {
        type Key = u128;
        fn id(&self) -> &u128 {
            &self.key_field
        }
        fn created_at(&self) -> &Timestamp {
            &self.registered_on
        }
    }

    let user = User { key_field: 0x1234_5678_9abc_def0, registered_on: some_time() };

    assert_eq!(&user.key_field, user.id());
    assert_eq!(&user.registered_on, user.created_at());
}

#[test]
fn mutable_entity_auto_test() {
    let data = named(vec![
        field("id", "Key<User, Uuid>", &[]),
        field("created_at", "Timestamp", &[]),
        field("updated_at", "Timestamp", &[]),
    ]);
    let plan = plan_mutable_entity(&data).unwrap();
    assert_eq!(
        plan,
        MutableEntityPlan { entity: EntityPlan { id: 0, created_at: 1 }, updated_at: 2 }
    );

    #[derive(Debug)]
    struct User {
        id: Key<User, u128>,
        created_at: Timestamp,
        updated_at: Timestamp,
    }
    impl Entity for User {
        type Key = Key<User, u128>;
        fn id(&self) -> &Self::Key {
            &self.id
        }
        fn created_at(&self) -> &Timestamp {
            &self.created_at
        }
    }
    impl MutableEntity for User {
        fn updated_at(&self) -> &Timestamp {
            &self.updated_at
        }
        fn touch(&mut self) -> &Timestamp {
            touch_field(&mut self.updated_at);
            &self.updated_at
        }
    }

    let mut user = User {
        id: Key::<User, u128>::new(7),
        created_at: some_time(),
        updated_at: some_time(),
    };

    assert_eq!(&user.id, user.id());
    assert_eq!(&user.created_at, user.created_at());
    assert_eq!(&user.updated_at, user.updated_at());

    let old_timestamp = *user.updated_at();
    let new_timestamp = *user.touch();

    assert_ne!(old_timestamp, new_timestamp);
    assert_ne!(&old_timestamp, user.updated_at());
    assert_eq!(&new_timestamp, user.updated_at());
}

#[test]
fn mutable_entity_annotated_test() {
    let data = named(vec![
        field("key_field", "Key<User, Uuid>", &["id_field"]),
        field("registered_on", "Timestamp", &["created_at_field"]),
        field("modified_at", "Timestamp", &["updated_at_field"]),
    ]);
    let plan = plan_mutable_entity(&data).unwrap();
    assert_eq!(
        plan,
        MutableEntityPlan { entity: EntityPlan { id: 0, created_at: 1 }, updated_at: 2 }
    );

    #[derive(Debug)]
    struct User {
        key_field: Key<User, u128>,
        registered_on: Timestamp,
        modified_at: Timestamp,
    }
    impl Entity for User {
        type Key = Key<User, u128>;
        fn id(&self) -> &Self::Key {
            &self.key_field
        }
        fn created_at(&self) -> &Timestamp {
            &self.registered_on
        }
    }
    impl MutableEntity for User {
        fn updated_at(&self) -> &Timestamp {
            &self.modified_at
        }
        fn touch(&mut self) -> &Timestamp {
            touch_field(&mut self.modified_at);
            &self.modified_at
        }
    }

    let mut user = User {
        key_field: Key::<User, u128>::new(9),
        registered_on: some_time(),
        modified_at: some_time(),
    };

    assert_eq!(&user.key_field, user.id());
    assert_eq!(&user.registered_on, user.created_at());
    assert_eq!(&user.modified_at, user.updated_at());

    let old_timestamp = *user.updated_at();
    let new_timestamp = *user.touch();

    assert_ne!(old_timestamp, new_timestamp);
    assert_ne!(&old_timestamp, user.updated_at());
    assert_eq!(&new_timestamp, user.updated_at());
}

#[test]
fn entity_marker_wins_over_name() {
    // A field called `id` loses to the field marked as the identifier.
    let data = named(vec![
        field("id", "u32", &[]),
        field("created_at", "Timestamp", &[]),
        field("key", "u64", &["id_field"]),
    ]);
    assert_eq!(plan_entity(&data).unwrap(), EntityPlan { id: 2, created_at: 1 });
}

#[test]
fn entity_id_found_by_name_anywhere() {
    let data = named(vec![
        field("created_at", "Timestamp", &[]),
        field("name", "String", &[]),
        field("id", "u32", &[]),
    ]);
    assert_eq!(plan_entity(&data).unwrap(), EntityPlan { id: 2, created_at: 0 });
}

#[test]
fn stamp_records_the_given_time() {
    let mut field = some_time();
    let later = Timestamp::new(1_431_648_001, 0);
    let r = reddd::entity::stamp(&mut field, later);
    assert_eq!(r, later);
    assert_eq!(field, later);
}

#[test]
fn touch_field_sets_current_time() {
    let mut field = Timestamp::new(0, 0);
    let r = touch_field(&mut field);
    assert_eq!(field, r);
    assert!(r.secs > 1_600_000_000);
    assert!(r.nanos < 1_000_000_000);
}

#[test]
fn timestamps_order_by_seconds_then_nanos() {
    let a = Timestamp::new(10, 999);
    let b = Timestamp::new(11, 0);
    let c = Timestamp::new(11, 5);
    assert!(a < b);
    assert!(b < c);
    assert!(c > a);
    assert_eq!(b.compare(&b), std::cmp::Ordering::Equal);
    assert_eq!(c.compare(&b), std::cmp::Ordering::Greater);
}
