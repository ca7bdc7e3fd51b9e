use listui::store::{ListItemData, StoreError, ValueStore};

#[test]
fn insert_then_load_bool() {
    let mut store = ValueStore::new();
    let h = store.insert("flag", ListItemData::Bool(true));
    assert_eq!(h.load(&store).unwrap(), &ListItemData::Bool(true));
}

#[test]
fn replace_roundtrip_every_supported_type() {
    let mut store = ValueStore::new();
    let cases = vec![
        ("b", ListItemData::Bool(false), ListItemData::Bool(true)),
        ("i32", ListItemData::I32(-7), ListItemData::I32(41)),
        ("i64", ListItemData::I64(-1), ListItemData::I64(i64::MIN)),
        ("u32", ListItemData::U32(0), ListItemData::U32(u32::MAX)),
        ("u64", ListItemData::U64(1), ListItemData::U64(u64::MAX)),
        (
            "f32",
            ListItemData::F32Bits(0.0f32.to_bits()),
            ListItemData::F32Bits(1.5f32.to_bits()),
        ),
        (
            "f64",
            ListItemData::F64Bits(0.0f64.to_bits()),
            ListItemData::F64Bits((-2.25f64).to_bits()),
        ),
        (
            "s",
            ListItemData::Text("old".to_string()),
            ListItemData::Text("new".to_string()),
        ),
    ];
    for (key, first, second) in cases {
        let h = store.insert(key, first);
        h.replace(second.clone(), &mut store).unwrap();
        assert_eq!(h.load(&store).unwrap(), &second);
    }
}

#[test]
fn load_missing_key_is_key_not_found() {
    let store = ValueStore::new();
    let h = store.get("absent");
    assert_eq!(h.load(&store), Err(StoreError::KeyNotFound));
}

#[test]
fn replace_missing_key_is_key_not_found_and_inserts_nothing() {
    let mut store = ValueStore::new();
    let h = store.get("absent");
    assert_eq!(
        h.replace(ListItemData::I32(1), &mut store),
        Err(StoreError::KeyNotFound)
    );
    assert_eq!(h.load(&store), Err(StoreError::KeyNotFound));
}

#[test]
fn insert_overwrites_prior_value_at_key() {
    let mut store = ValueStore::new();
    store.insert("k", ListItemData::I32(1));
    let h2 = store.insert("k", ListItemData::I32(2));
    assert_eq!(h2.load(&store).unwrap(), &ListItemData::I32(2));
}

#[test]
fn handles_share_a_key() {
    let mut store = ValueStore::new();
    let h1 = store.insert("shared", ListItemData::U32(5));
    let h2 = store.get("shared");
    h2.replace(ListItemData::U32(6), &mut store).unwrap();
    assert_eq!(h1.load(&store).unwrap(), &ListItemData::U32(6));
}

#[test]
fn downcast_matches_only_its_own_type() {
    let v = ListItemData::Bool(true);
    assert_eq!(v.as_bool(), Some(true));
    assert_eq!(v.as_i32(), None);
    assert_eq!(v.as_f64_bits(), None);
    let n = ListItemData::I64(-3);
    assert_eq!(n.as_i64(), Some(-3));
    assert_eq!(n.as_bool(), None);
    let t = ListItemData::Text("x".to_string());
    assert_eq!(t.as_text().map(|s| s.as_str()), Some("x"));
    assert_eq!(t.as_u64(), None);
    let f = ListItemData::F32Bits(2.5f32.to_bits());
    assert_eq!(f.as_f32_bits(), Some(2.5f32.to_bits()));
    assert_eq!(f.as_u32(), None);
}
