use identity_core::Error;
use identity_core::persona::Persona;
use identity_core::persona::PersonaId;
use identity_core::persona::PersonaStore;

fn persona(name: &str) -> Persona {
    Persona {
        display_name: name.to_string(),
        profile_picture: None,
        bio: None,
        pronouns: None,
    }
}

#[test]
fn add_assigns_lowest_free_slot_and_reuses_freed_slots() {
    let mut store = PersonaStore::new(persona("default"));
    assert_eq!(store.add(persona("a")).unwrap(), 1);
    assert_eq!(store.add(persona("b")).unwrap(), 2);
    assert_eq!(store.add(persona("c")).unwrap(), 3);
    let removed = store.remove(2).unwrap();
    assert_eq!(removed.display_name, "b");
    assert_eq!(store.add(persona("d")).unwrap(), 2);
    assert_eq!(store.add(persona("e")).unwrap(), 4);
}

#[test]
fn get_resolves_default_and_occupied_slots_only() {
    let mut store = PersonaStore::new(persona("default"));
    let slot = store.add(persona("work")).unwrap();
    assert_eq!(store.get(PersonaId::Default).unwrap().display_name, "default");
    assert_eq!(store.get(PersonaId::Id(slot)).unwrap().display_name, "work");
    assert!(store.get(PersonaId::Id(slot + 1)).is_none());
    assert!(store.get(PersonaId::Id(0)).is_none());
}

#[test]
fn remove_of_unoccupied_slot_fails_with_persona_not_found() {
    let mut store = PersonaStore::new(persona("default"));
    assert_eq!(store.remove(1).unwrap_err(), Error::PersonaNotFound);
    let slot = store.add(persona("a")).unwrap();
    store.remove(slot).unwrap();
    assert_eq!(store.remove(slot).unwrap_err(), Error::PersonaNotFound);
    assert_eq!(store.remove(0).unwrap_err(), Error::PersonaNotFound);
}

#[test]
fn filling_all_slots_then_adding_fails_with_personas_full() {
    let mut store = PersonaStore::new(persona("default"));
    for expected in 1..=65535u16 {
        let slot = store.add(persona("p")).unwrap();
        assert_eq!(slot, expected);
    }
    assert_eq!(store.add(persona("overflow")).unwrap_err(), Error::PersonasFull);
    // Freeing any slot makes insertion possible again, at that slot.
    store.remove(123).unwrap();
    assert_eq!(store.add(persona("again")).unwrap(), 123);
}

#[test]
fn user_persona_operations_delegate_to_the_store() {
    let mut user = identity_core::user::UserId::generate();
    assert_eq!(user.default_persona().display_name, "My Name");
    assert_eq!(user.persona_for(PersonaId::Default).unwrap().display_name, "My Name");
    let slot = user.add_persona(persona("travel")).unwrap();
    assert_eq!(slot, 1);
    assert_eq!(user.persona_for(PersonaId::Id(slot)).unwrap().display_name, "travel");
    let removed = user.remove_persona(slot).unwrap();
    assert_eq!(removed.display_name, "travel");
    assert!(user.persona_for(PersonaId::Id(slot)).is_none());
    assert_eq!(user.remove_persona(slot).unwrap_err(), Error::PersonaNotFound);
}
