use athena_editor::model::{Axis, Coordinate, EntityEntry, Model, Rejected, Selection, WorldModel};

fn at(value: f32) -> Coordinate {
    Coordinate { bits: value.to_bits() }
}

fn entity(x: f32, y: f32, z: f32) -> EntityEntry {
    EntityEntry { x: at(x), y: at(y), z: at(z) }
}

#[test]
fn new_model_is_empty() {
    let model = Model::new();
    assert!(model.worlds().is_empty());
    assert_eq!(model.selection(), None);
    assert_eq!(model.current_entity(), None);
}

#[test]
fn origin_is_zero_on_every_axis() {
    let origin = EntityEntry::origin();
    assert_eq!(origin, entity(0.0, 0.0, 0.0));
    assert_eq!(origin.x.bits, 0);
    assert_eq!(f32::from_bits(origin.y.bits), 0.0);
    assert!(f32::from_bits(origin.z.bits).is_sign_positive());
}

#[test]
fn coordinate_reads_the_named_axis() {
    let e = entity(1.0, 2.0, 3.0);
    assert_eq!(e.coordinate(Axis::X), at(1.0));
    assert_eq!(e.coordinate(Axis::Y), at(2.0));
    assert_eq!(e.coordinate(Axis::Z), at(3.0));
}

#[test]
fn place_changes_one_axis_only() {
    let mut e = entity(1.0, 2.0, 3.0);
    e.place(Axis::X, at(-4.5));
    assert_eq!(e, entity(-4.5, 2.0, 3.0));
    e.place(Axis::Y, at(8.0));
    assert_eq!(e, entity(-4.5, 8.0, 3.0));
    e.place(Axis::Z, at(0.25));
    assert_eq!(e, entity(-4.5, 8.0, 0.25));
}

#[test]
fn add_world_appends_an_empty_world() {
    let mut model = Model::new();
    model.add_world();
    assert_eq!(model.worlds(), &vec![WorldModel { entities: vec![] }]);
    model.add_world();
    assert_eq!(model.worlds().len(), 2);
    assert!(model.worlds()[1].entities.is_empty());
    assert_eq!(model.selection(), None);
}

#[test]
fn add_entity_appends_at_the_origin() {
    let mut model = Model::new();
    model.add_world();
    model.add_world();
    assert_eq!(model.add_entity(1), Ok(()));
    assert_eq!(model.add_entity(1), Ok(()));
    assert_eq!(model.add_entity(0), Ok(()));
    assert_eq!(model.worlds()[0].entities, vec![entity(0.0, 0.0, 0.0)]);
    assert_eq!(model.worlds()[1].entities, vec![entity(0.0, 0.0, 0.0), entity(0.0, 0.0, 0.0)]);
}

#[test]
fn add_entity_to_a_missing_world_is_rejected() {
    let mut model = Model::new();
    assert_eq!(model.add_entity(0), Err(Rejected::NoSuchWorld));
    model.add_world();
    let before = model.clone();
    assert_eq!(model.add_entity(1), Err(Rejected::NoSuchWorld));
    assert_eq!(model.add_entity(usize::MAX), Err(Rejected::NoSuchWorld));
    assert_eq!(model, before);
}

#[test]
fn select_takes_an_existing_entity() {
    let mut model = Model::from_worlds(vec![
        WorldModel { entities: vec![entity(1.0, 2.0, 3.0)] },
        WorldModel { entities: vec![entity(4.0, 5.0, 6.0), entity(7.0, 8.0, 9.0)] },
    ]);
    assert_eq!(model.select(Selection { world: 1, entity: 1 }), Ok(()));
    assert_eq!(model.selection(), Some(Selection { world: 1, entity: 1 }));
    assert_eq!(model.current_entity(), Some(entity(7.0, 8.0, 9.0)));
    assert_eq!(model.select(Selection { world: 0, entity: 0 }), Ok(()));
    assert_eq!(model.current_entity(), Some(entity(1.0, 2.0, 3.0)));
}

#[test]
fn select_looks_for_the_world_first() {
    let mut model = Model::from_worlds(vec![WorldModel { entities: vec![entity(1.0, 2.0, 3.0)] }]);
    assert_eq!(model.select(Selection { world: 1, entity: 0 }), Err(Rejected::NoSuchWorld));
    assert_eq!(model.select(Selection { world: 1, entity: 9 }), Err(Rejected::NoSuchWorld));
    assert_eq!(model.select(Selection { world: 0, entity: 1 }), Err(Rejected::NoSuchEntity));
    assert_eq!(model.selection(), None);
}

#[test]
fn a_rejected_select_keeps_the_earlier_selection() {
    let mut model = Model::from_worlds(vec![WorldModel { entities: vec![entity(1.0, 2.0, 3.0)] }]);
    assert_eq!(model.select(Selection { world: 0, entity: 0 }), Ok(()));
    assert_eq!(model.select(Selection { world: 0, entity: 5 }), Err(Rejected::NoSuchEntity));
    assert_eq!(model.selection(), Some(Selection { world: 0, entity: 0 }));
}

#[test]
fn entity_looks_up_a_place() {
    let model = Model::from_worlds(vec![
        WorldModel { entities: vec![entity(1.0, 2.0, 3.0), entity(4.0, 5.0, 6.0)] },
        WorldModel { entities: vec![] },
    ]);
    assert_eq!(model.entity(Selection { world: 0, entity: 0 }), Ok(entity(1.0, 2.0, 3.0)));
    assert_eq!(model.entity(Selection { world: 0, entity: 1 }), Ok(entity(4.0, 5.0, 6.0)));
    assert_eq!(model.entity(Selection { world: 0, entity: 2 }), Err(Rejected::NoSuchEntity));
    assert_eq!(model.entity(Selection { world: 1, entity: 0 }), Err(Rejected::NoSuchEntity));
    assert_eq!(model.entity(Selection { world: 2, entity: 0 }), Err(Rejected::NoSuchWorld));
}

#[test]
fn place_moves_the_entity_named_in_its_world() {
    let mut model = Model::from_worlds(vec![
        WorldModel { entities: vec![entity(1.0, 2.0, 3.0), entity(4.0, 5.0, 6.0)] },
        WorldModel { entities: vec![entity(7.0, 8.0, 9.0)] },
    ]);
    assert_eq!(model.select(Selection { world: 0, entity: 1 }), Ok(()));
    assert_eq!(model.place(Selection { world: 0, entity: 1 }, Axis::Z, at(6.5)), Ok(()));
    assert_eq!(model.current_entity(), Some(entity(4.0, 5.0, 6.5)));
    assert_eq!(
        model.worlds(),
        &vec![
            WorldModel { entities: vec![entity(1.0, 2.0, 3.0), entity(4.0, 5.0, 6.5)] },
            WorldModel { entities: vec![entity(7.0, 8.0, 9.0)] },
        ]
    );
    assert_eq!(model.selection(), Some(Selection { world: 0, entity: 1 }));
}

#[test]
fn place_does_not_ask_which_entity_is_being_edited() {
    let mut model = Model::from_worlds(vec![
        WorldModel { entities: vec![entity(1.0, 2.0, 3.0), entity(4.0, 5.0, 6.0)] },
        WorldModel { entities: vec![entity(7.0, 8.0, 9.0)] },
    ]);
    // nothing is being edited
    assert_eq!(model.place(Selection { world: 1, entity: 0 }, Axis::X, at(-7.0)), Ok(()));
    assert_eq!(model.selection(), None);
    // another entity is being edited
    assert_eq!(model.select(Selection { world: 0, entity: 0 }), Ok(()));
    assert_eq!(model.place(Selection { world: 0, entity: 1 }, Axis::Y, at(0.5)), Ok(()));
    assert_eq!(model.selection(), Some(Selection { world: 0, entity: 0 }));
    assert_eq!(model.current_entity(), Some(entity(1.0, 2.0, 3.0)));
    assert_eq!(
        model.worlds(),
        &vec![
            WorldModel { entities: vec![entity(1.0, 2.0, 3.0), entity(4.0, 0.5, 6.0)] },
            WorldModel { entities: vec![entity(-7.0, 8.0, 9.0)] },
        ]
    );
}

#[test]
fn place_at_a_missing_place_is_rejected() {
    let mut model = Model::from_worlds(vec![WorldModel { entities: vec![entity(1.0, 2.0, 3.0)] }]);
    assert_eq!(model.select(Selection { world: 0, entity: 0 }), Ok(()));
    let before = model.clone();
    assert_eq!(
        model.place(Selection { world: 1, entity: 0 }, Axis::X, at(1.0)),
        Err(Rejected::NoSuchWorld)
    );
    assert_eq!(
        model.place(Selection { world: 0, entity: 1 }, Axis::X, at(1.0)),
        Err(Rejected::NoSuchEntity)
    );
    assert_eq!(model, before);
}

#[test]
fn from_worlds_opens_with_nothing_selected() {
    let worlds = vec![WorldModel { entities: vec![entity(0.5, -0.5, 1e10)] }, WorldModel { entities: vec![] }];
    let model = Model::from_worlds(worlds.clone());
    assert_eq!(model.worlds(), &worlds);
    assert_eq!(model.selection(), None);
    assert_eq!(model.current_entity(), None);
}

#[test]
fn the_selection_survives_later_additions() {
    let mut model = Model::new();
    model.add_world();
    assert_eq!(model.add_entity(0), Ok(()));
    assert_eq!(model.select(Selection { world: 0, entity: 0 }), Ok(()));
    assert_eq!(model.place(Selection { world: 0, entity: 0 }, Axis::X, at(3.0)), Ok(()));
    model.add_world();
    assert_eq!(model.add_entity(0), Ok(()));
    assert_eq!(model.add_entity(1), Ok(()));
    assert_eq!(model.selection(), Some(Selection { world: 0, entity: 0 }));
    assert_eq!(model.current_entity(), Some(entity(3.0, 0.0, 0.0)));
}
