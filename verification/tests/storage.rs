use facegate::storage::{
    embeddings_for, embeddings_for_scope, AuthScope, TemplateScope, TemplateStore, UserTemplates,
};

fn bits(v: &[f32]) -> Vec<u32> {
    v.iter().map(|x| x.to_bits()).collect()
}

fn temp_store() -> (TemplateStore, UserTemplates) {
    (TemplateStore::new("/tmp/facegate-templates"), UserTemplates::empty())
}

#[test]
fn add_and_reload() {
    let (store, mut loaded) = temp_store();
    let emb = bits(&[0.1_f32, 0.2, 0.3]);
    store
        .add_template("alice", &mut loaded, "alice-normal", TemplateScope::Both, emb.clone())
        .expect("add");
    assert_eq!(loaded.templates.len(), 1);
    assert_eq!(loaded.templates[0].label, "alice-normal");
    assert_eq!(loaded.templates[0].embedding, emb);
}

#[test]
fn remove_template() {
    let (store, mut loaded) = temp_store();
    store
        .add_template("bob", &mut loaded, "bob-1", TemplateScope::Both, bits(&[1.0]))
        .expect("add");
    store
        .add_template("bob", &mut loaded, "bob-2", TemplateScope::Both, bits(&[2.0]))
        .expect("add");
    store.remove_template("bob", &mut loaded, 0).expect("remove");
    assert_eq!(loaded.templates.len(), 1);
    // IDs are stable across deletes; the surviving template keeps its id.
    assert_eq!(loaded.templates[0].id, 1);
    assert_eq!(loaded.templates[0].label, "bob-2");
}

#[test]
fn add_after_remove_does_not_reuse_id() {
    let (store, mut loaded) = temp_store();
    store
        .add_template("eve", &mut loaded, "eve-1", TemplateScope::Both, bits(&[1.0]))
        .expect("add");
    store
        .add_template("eve", &mut loaded, "eve-2", TemplateScope::Both, bits(&[2.0]))
        .expect("add");
    store.remove_template("eve", &mut loaded, 1).expect("remove");
    let new = store
        .add_template("eve", &mut loaded, "eve-3", TemplateScope::Both, bits(&[3.0]))
        .expect("add");
    assert_eq!(new.id, 2);
}

#[test]
fn filters_embeddings_by_auth_scope() {
    let (store, mut loaded) = temp_store();
    store
        .add_template("alice", &mut loaded, "sudo", TemplateScope::Sudo, bits(&[1.0]))
        .expect("add");
    store
        .add_template("alice", &mut loaded, "session", TemplateScope::Session, bits(&[2.0]))
        .expect("add");
    store
        .add_template("alice", &mut loaded, "both", TemplateScope::Both, bits(&[3.0]))
        .expect("add");

    let sudo = embeddings_for_scope(loaded.clone(), AuthScope::Sudo).expect("sudo embeddings");
    assert_eq!(sudo, vec![bits(&[1.0]), bits(&[3.0])]);

    let session =
        embeddings_for_scope(loaded.clone(), AuthScope::Session).expect("session embeddings");
    assert_eq!(session, vec![bits(&[2.0]), bits(&[3.0])]);
}

#[test]
fn rejects_path_traversal_usernames() {
    let (store, mut loaded) = temp_store();
    let err = store
        .add_template("../root", &mut loaded, "bad", TemplateScope::Both, bits(&[1.0]))
        .err()
        .expect("username rejected");
    assert!(err.message().contains("invalid username"));
}

// ── Further cases ────────────────────────────────────────────────────────────

#[test]
fn load_of_unknown_user_is_not_enrolled() {
    let (_store, loaded) = temp_store();
    let err = embeddings_for(loaded).err().expect("no templates");
    assert!(matches!(err, facegate::error::FaceRsError::NotEnrolled));
}

#[test]
fn rejected_username_leaves_store_untouched() {
    let (store, mut loaded) = temp_store();
    store
        .add_template("alice", &mut loaded, "front", TemplateScope::Both, bits(&[1.0]))
        .expect("add");
    assert!(store
        .add_template("..", &mut loaded, "bad", TemplateScope::Both, bits(&[1.0]))
        .is_err());
    assert!(store
        .add_template("", &mut loaded, "bad", TemplateScope::Both, bits(&[1.0]))
        .is_err());
    assert_eq!(loaded.templates.len(), 1);
    assert_eq!(loaded.next_id, 1);
}

#[test]
fn removing_unknown_id_names_it() {
    let (store, mut loaded) = temp_store();
    store
        .add_template("bob", &mut loaded, "bob-1", TemplateScope::Both, bits(&[1.0]))
        .expect("add");
    let err = store.remove_template("bob", &mut loaded, 7).err().expect("missing id");
    assert_eq!(err.message(), "storage error: no template with id 7 for user bob");
    assert_eq!(loaded.templates.len(), 1);
}

#[test]
fn legacy_store_ids_are_healed() {
    let (store, mut loaded) = temp_store();
    store
        .add_template("carol", &mut loaded, "a", TemplateScope::Both, bits(&[1.0]))
        .expect("add");
    // A store written before `next_id` was kept.
    loaded.next_id = 0;
    let t = store
        .add_template("carol", &mut loaded, "b", TemplateScope::Both, bits(&[2.0]))
        .expect("add");
    assert_eq!(t.id, 1);
    assert_eq!(loaded.next_id, 2);
}

#[test]
fn paths_join_like_the_filesystem() {
    let store = TemplateStore::new("/var/lib/facegate/templates/");
    assert_eq!(
        store.embeddings_path("alice").expect("valid"),
        "/var/lib/facegate/templates/alice/embeddings.json"
    );
    let store = TemplateStore::new("/var/lib/facegate/templates");
    assert_eq!(
        store.user_dir("alice").expect("valid"),
        "/var/lib/facegate/templates/alice"
    );
}
