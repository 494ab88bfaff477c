use canvas_sync::object::{
    DefinedObject, DefinedObjectWithId, ImageObject, Object, ObjectStore, Position, TextObject,
};

fn text(s: &str) -> Object {
    Object::Text(TextObject { text: s.to_string() })
}

fn placed(s: &str, x: i32, y: i32) -> DefinedObject {
    DefinedObject { position: Position { x, y }, object: text(s) }
}

fn find(entries: &[DefinedObjectWithId], id: u128) -> Option<&DefinedObject> {
    entries.iter().find(|e| e.id == id).map(|e| &e.object)
}

fn text_of(d: &DefinedObject) -> &str {
    match &d.object {
        Object::Text(t) => &t.text,
        Object::Image(i) => &i.url,
    }
}

#[test]
fn new_store_is_empty() {
    let store = ObjectStore::new();
    assert!(store.to_vec().is_empty());
}

#[test]
fn insert_then_snapshot_lists_each_entry_once() {
    let mut store = ObjectStore::new();
    store.insert(1, placed("a", 1, 2));
    store.insert(2, placed("b", -3, 4));
    let entries = store.to_vec();
    assert_eq!(entries.len(), 2);
    assert_eq!(text_of(find(&entries, 1).unwrap()), "a");
    assert_eq!(find(&entries, 1).unwrap().position, Position { x: 1, y: 2 });
    assert_eq!(text_of(find(&entries, 2).unwrap()), "b");
    assert_eq!(find(&entries, 2).unwrap().position, Position { x: -3, y: 4 });
}

#[test]
fn insert_on_existing_id_replaces() {
    let mut store = ObjectStore::new();
    store.insert(7, placed("old", 0, 0));
    store.insert(7, placed("new", 5, 5));
    let entries = store.to_vec();
    assert_eq!(entries.len(), 1);
    assert_eq!(text_of(&entries[0].object), "new");
    assert_eq!(entries[0].object.position, Position { x: 5, y: 5 });
}

#[test]
fn move_changes_only_the_position() {
    let mut store = ObjectStore::new();
    store.insert(3, placed("t", 0, 0));
    store.move_if_present(3, Position { x: i32::MAX, y: i32::MIN });
    let entries = store.to_vec();
    assert_eq!(entries.len(), 1);
    assert_eq!(text_of(&entries[0].object), "t");
    assert_eq!(entries[0].object.position, Position { x: i32::MAX, y: i32::MIN });
}

#[test]
fn move_and_remove_of_absent_id_change_nothing() {
    let mut store = ObjectStore::new();
    store.insert(3, placed("t", 1, 1));
    store.move_if_present(4, Position { x: 9, y: 9 });
    store.remove(4);
    let entries = store.to_vec();
    assert_eq!(entries.len(), 1);
    assert_eq!(entries[0].id, 3);
    assert_eq!(entries[0].object.position, Position { x: 1, y: 1 });
}

#[test]
fn remove_and_clear() {
    let mut store = ObjectStore::new();
    store.insert(1, placed("a", 0, 0));
    store.insert(2, placed("b", 0, 0));
    store.remove(1);
    let entries = store.to_vec();
    assert_eq!(entries.len(), 1);
    assert_eq!(entries[0].id, 2);
    store.clear();
    assert!(store.to_vec().is_empty());
}

#[test]
fn image_objects_keep_their_fields() {
    let mut store = ObjectStore::new();
    let image = Object::Image(ImageObject { url: "http://x/y.png".to_string(), width: 640, height: 480 });
    store.insert(u128::MAX, DefinedObject { position: Position { x: 0, y: 0 }, object: image });
    let entries = store.to_vec();
    assert_eq!(entries[0].id, u128::MAX);
    match &entries[0].object.object {
        Object::Image(i) => {
            assert_eq!(i.url, "http://x/y.png");
            assert_eq!(i.width, 640);
            assert_eq!(i.height, 480);
        }
        Object::Text(_) => panic!("expected an image"),
    }
}
