use profile_import::manager_data::ManagerData;

#[test]
fn and_then_transforms_each_present_slot() {
    let data = ManagerData::new(Some(2u32), Some(5u32));
    let out = data.and_then(|value| Some(value * 10));
    assert_eq!(out.r2modman, Some(20));
    assert_eq!(out.thunderstore, Some(50));
}

#[test]
fn and_then_keeps_absent_slots_absent() {
    let data: ManagerData<u32> = ManagerData::new(None, Some(5));
    let out = data.and_then(|value| Some(value + 1));
    assert_eq!(out.r2modman, None);
    assert_eq!(out.thunderstore, Some(6));

    let nothing: ManagerData<u32> = ManagerData::new(None, None);
    let out = nothing.and_then(|value| Some(value + 1));
    assert_eq!(out, ManagerData { r2modman: None, thunderstore: None });
}

#[test]
fn and_then_empties_a_slot_where_the_transform_gives_none() {
    let data = ManagerData::new(Some(3u32), Some(4u32));
    let out = data.and_then(|value| if value % 2 == 0 { Some(value / 2) } else { None });
    assert_eq!(out.r2modman, None);
    assert_eq!(out.thunderstore, Some(2));
}

#[test]
fn and_then_may_change_the_type_of_the_slots() {
    let data = ManagerData::new(Some(7u8), None);
    let out = data.and_then(|value| Some(format!("#{}", value)));
    assert_eq!(out.r2modman, Some("#7".to_string()));
    assert_eq!(out.thunderstore, None);
}

#[test]
fn and_then_is_each_slot_on_its_own() {
    let halve = |value: u32| if value % 2 == 0 { Some(value / 2) } else { None };
    for r2modman in [None, Some(1u32), Some(8)] {
        for thunderstore in [None, Some(3u32), Some(6)] {
            let out = ManagerData::new(r2modman, thunderstore).and_then(halve);
            assert_eq!(out.r2modman, r2modman.and_then(halve));
            assert_eq!(out.thunderstore, thunderstore.and_then(halve));
        }
    }
}
