use crud_traits::adapters::{from_sqlx, storage_error, validation_outcome};
use crud_traits::controller::{create, destroy, index, show, store, update};
use crud_traits::outcome::{respond, screen, Action, DataError};
use crud_traits::router::{dispatch, route, Endpoint, Method};
use crud_traits::status::Status;
use crud_traits::table::Table;

#[derive(Clone, Debug, Default, PartialEq)]
struct Named {
    name: String,
}

fn named(s: &str) -> Named {
    Named { name: s.to_string() }
}

fn pass() -> Result<(), String> {
    Ok(())
}

fn fail(message: &str) -> Result<(), String> {
    Err(message.to_string())
}

#[test]
fn scenario_create_update_show_destroy() {
    let mut table: Table<Named> = Table::new();
    let made = create(&mut table, named("A"), pass()).ok().unwrap();
    assert_eq!(made.data.name, "A");
    assert!(made.id >= 1);
    let changed = update(&mut table, made.id, named("B"), pass()).ok().unwrap();
    assert_eq!(changed.id, made.id);
    assert_eq!(changed.data.name, "B");
    let missing = show(&table, 99999).err().unwrap();
    assert_eq!(missing.status.code(), 404);
    assert_eq!(destroy(&mut table, made.id).ok(), Some(()));
    let gone = show(&table, made.id).err().unwrap();
    assert_eq!(gone.status.code(), 404);
}

#[test]
fn create_then_find_returns_the_data() {
    let mut table: Table<Named> = Table::new();
    let made = table.create(named("alpha")).ok().unwrap();
    let found = table.find(made.id).ok().unwrap();
    assert_eq!(found.id, made.id);
    assert_eq!(found.data, named("alpha"));
}

#[test]
fn identifiers_count_up_and_are_not_reused() {
    let mut table: Table<Named> = Table::new();
    assert_eq!(table.create(named("a")).ok().unwrap().id, 1);
    assert_eq!(table.create(named("b")).ok().unwrap().id, 2);
    assert!(table.delete(2).is_ok());
    assert_eq!(table.create(named("c")).ok().unwrap().id, 3);
}

#[test]
fn invalid_payload_is_rejected_before_storage() {
    let mut table: Table<Named> = Table::new();
    let kept = table.create(named("kept")).ok().unwrap();
    let stored = store(&mut table, named("x"), fail("name: too short")).err().unwrap();
    assert_eq!(stored.status, Status::BadRequest);
    assert_eq!(stored.status.code(), 400);
    assert_eq!(stored.message, "name: too short");
    let updated = update(&mut table, kept.id, named("y"), fail("name: too long")).err().unwrap();
    assert_eq!(updated.status.code(), 400);
    assert_eq!(updated.message, "name: too long");
    assert_eq!(table.count(), 1);
    assert_eq!(table.find(kept.id).ok().unwrap().data, named("kept"));
}

#[test]
fn absent_id_maps_to_fixed_statuses() {
    let mut table: Table<Named> = Table::new();
    assert_eq!(show(&table, 7).err().unwrap().status.code(), 404);
    assert_eq!(destroy(&mut table, 7).err().unwrap().status.code(), 500);
    assert_eq!(update(&mut table, 7, named("z"), pass()).err().unwrap().status.code(), 500);
    assert_eq!(show(&table, 0).err().unwrap().status, Status::NotFound);
    assert_eq!(show(&table, -3).err().unwrap().status, Status::NotFound);
}

#[test]
fn destroy_twice_succeeds_then_fails() {
    let mut table: Table<Named> = Table::new();
    let made = store(&mut table, named("once"), pass()).ok().unwrap();
    assert!(destroy(&mut table, made.id).is_ok());
    let second = destroy(&mut table, made.id).err().unwrap();
    assert_eq!(second.status, Status::InternalServerError);
    assert_eq!(second.status.code(), 500);
}

#[test]
fn index_lists_live_rows_and_matches_count() {
    let mut table: Table<Named> = Table::new();
    assert!(index(&table).ok().unwrap().is_empty());
    assert_eq!(table.count(), 0);
    let a = table.create(named("a")).ok().unwrap();
    let b = table.create(named("b")).ok().unwrap();
    let c = table.create(named("c")).ok().unwrap();
    assert!(table.delete(b.id).is_ok());
    let listed = index(&table).ok().unwrap();
    assert_eq!(listed.len() as i64, table.count());
    assert_eq!(listed.len(), 2);
    assert_eq!(listed[0].id, a.id);
    assert_eq!(listed[0].data, named("a"));
    assert_eq!(listed[1].id, c.id);
    assert_eq!(listed[1].data, named("c"));
    assert_eq!(table.get_all().len(), 2);
}

#[test]
fn factory_row_is_found() {
    let mut table: Table<Named> = Table::new();
    let made = table.factory().ok().unwrap();
    let found = table.find(made.id).ok().unwrap();
    assert_eq!(found.id, made.id);
    assert_eq!(found.data, Named::default());
}

#[test]
fn update_of_absent_row_is_not_found_at_storage() {
    let mut table: Table<Named> = Table::new();
    match table.update(4, named("q")) {
        Err(DataError::NotFound { .. }) => {}
        _ => panic!("expected a not-found error"),
    }
    match table.delete(4) {
        Err(DataError::NotFound { .. }) => {}
        _ => panic!("expected a not-found error"),
    }
}

#[test]
fn status_codes() {
    assert_eq!(Status::Success.code(), 200);
    assert_eq!(Status::BadRequest.code(), 400);
    assert_eq!(Status::NotFound.code(), 404);
    assert_eq!(Status::InternalServerError.code(), 500);
}

#[test]
fn respond_keeps_message_and_picks_status() {
    let shown = respond::<i32>(Action::Show, Err(DataError::Storage { message: "down".to_string() }));
    let f = shown.err().unwrap();
    assert_eq!(f.status.code(), 404);
    assert_eq!(f.message, "down");
    let removed = respond::<()>(Action::Destroy, Err(DataError::NotFound { message: "gone".to_string() }));
    let f = removed.err().unwrap();
    assert_eq!(f.status.code(), 500);
    assert_eq!(f.message, "gone");
    assert_eq!(respond::<i32>(Action::Index, Ok(5)).ok(), Some(5));
    assert!(screen(pass()).is_ok());
    assert_eq!(screen(fail("bad")).err().unwrap().status.code(), 400);
}

#[test]
fn routes_bind_the_five_actions() {
    assert_eq!(dispatch(Method::Get, Endpoint::Collection), Some(Action::Index));
    assert_eq!(dispatch(Method::Post, Endpoint::Collection), Some(Action::Store));
    assert_eq!(dispatch(Method::Get, Endpoint::Item), Some(Action::Show));
    assert_eq!(dispatch(Method::Put, Endpoint::Item), Some(Action::Update));
    assert_eq!(dispatch(Method::Delete, Endpoint::Item), Some(Action::Destroy));
    assert_eq!(dispatch(Method::Put, Endpoint::Collection), None);
    assert_eq!(dispatch(Method::Patch, Endpoint::Item), None);
    assert_eq!(route(Action::Update), (Endpoint::Item, Method::Put));
    assert_eq!(Endpoint::Collection.path(), "/");
    assert_eq!(Endpoint::Item.path(), "/:id");
}

#[test]
fn sqlx_errors_are_classified() {
    match storage_error(sqlx::Error::RowNotFound) {
        DataError::NotFound { message } => {
            assert_eq!(message, "no rows returned by a query that expected to return at least one row")
        }
        _ => panic!("expected a not-found error"),
    }
    match storage_error(sqlx::Error::Protocol("broken".to_string())) {
        DataError::Storage { message } => {
            assert_eq!(message, "encountered unexpected or invalid data: broken")
        }
        _ => panic!("expected a storage error"),
    }
    assert_eq!(from_sqlx::<i32>(Ok(3)).ok(), Some(3));
    let shown = respond::<i32>(Action::Show, from_sqlx(Err(sqlx::Error::RowNotFound)));
    assert_eq!(shown.err().unwrap().status.code(), 404);
}

#[test]
fn validation_errors_become_text() {
    assert_eq!(validation_outcome(Ok(())), Ok(()));
    let mut errors = validator::ValidationErrors::new();
    errors.add("name", validator::ValidationError::new("length"));
    let text = validation_outcome(Err(errors)).err().unwrap();
    assert!(text.starts_with("name: Validation error: length"));
}
