use flok::business_obj::BusinessObject;
use flok::error::ReferenceError;
use flok::projection::{apply, apply_at, apply_through, swap_in, try_apply_through};
use flok::reference::{ComposedReference, DynamicReference, IndexedReference};
use flok::root::RootHandle;

#[derive(Debug)]
struct City {
    name: &'static str,
    state: &'static str,
    zip: u16,
}

#[derive(Debug)]
struct Address {
    street: &'static str,
    city: City,
}

#[derive(Debug)]
struct Person {
    name: &'static str,
    address: Address,
}

fn joe_of_winchester() -> Person {
    Person {
        name: "joe",
        address: Address {
            street: "1526 S Base",
            city: City { name: "Winchester", state: "IN", zip: 47394 },
        },
    }
}

#[derive(Debug, Clone, PartialEq)]
struct Beast {
    id: Vec<String>,
    weight: u32,
}

#[derive(Debug, Clone, PartialEq)]
struct Flock {
    name: String,
    animals: Vec<Beast>,
    counter: u64,
}

fn flock_a() -> Flock {
    Flock { name: "A".to_string(), animals: vec![], counter: 0 }
}

fn beast(id: &str, weight: u32) -> Beast {
    Beast { id: vec![id.to_string()], weight }
}

fn animals_of(flock: &mut Flock) -> &mut Vec<Beast> {
    &mut flock.animals
}

fn second_of(flock: &mut Flock) -> Option<&mut Beast> {
    flock.animals.get_mut(1)
}

fn sixth_of(flock: &mut Flock) -> Option<&mut Beast> {
    flock.animals.get_mut(5)
}

#[test]
fn joe() {
    let person = RootHandle::new(joe_of_winchester());
    let seen = person.exec(|person| {
        println!("person.name is {}", person.name);
        person.name
    });
    assert_eq!(seen, Ok("joe"));

    let (city, address) = {
        // the handle that the references were made from goes out of scope here
        let address = person.map(|person: &mut Person| &mut person.address);
        let city = address.clone().map(|address: &mut Address| &mut address.city);

        (city.clone(), address.clone())
    };

    let street = address.exec(|v| {
        println!("address is {v:?}");
        v.street
    });
    assert_eq!(street, Ok("1526 S Base"));
    let state = address.exec(|v| {
        println!("address.city is {:?}", v.city);
        v.city.state
    });
    assert_eq!(state, Ok("IN"));
    let zip = city.exec(|v| {
        println!("city is {v:?}");
        (v.name, v.zip)
    });
    assert_eq!(zip, Ok(("Winchester", 47394)));
}

#[test]
fn round_trip_through_a_narrowed_reference() {
    let h = RootHandle::new(flock_a());
    let r = h.narrow(|f: &mut Flock| &mut f.animals);
    assert_eq!(r.execute(|v| v.push(beast("x1", 10))), Ok(()));
    assert_eq!(h.execute(|f| f.animals.len()), Ok(1));
    assert_eq!(h.execute(|f| f.animals[0].id[0].clone()), Ok("x1".to_string()));
    assert_eq!(h.execute(|f| f.name.clone()), Ok("A".to_string()));
}

#[test]
fn a_clone_of_a_handle_sees_what_the_handle_wrote() {
    let h = RootHandle::new(flock_a());
    assert_eq!(h.execute(|f| f.counter = 41), Ok(()));
    let h2 = h.clone();
    assert_eq!(h2.execute(|f| f.counter), Ok(41));
    assert_eq!(h2.execute(|f| {
        f.counter += 1;
        f.counter
    }), Ok(42));
    assert_eq!(h.execute(|f| f.counter), Ok(42));
}

#[test]
fn a_clone_of_a_reference_shares_its_target() {
    let h = RootHandle::new(flock_a());
    let name = h.narrow(|f: &mut Flock| &mut f.name);
    let again = name.clone();
    assert_eq!(name.execute(|n| n.push('b')), Ok(()));
    assert_eq!(again.execute(|n| n.clone()), Ok("Ab".to_string()));
    assert_eq!(h.execute(|f| f.name.clone()), Ok("Ab".to_string()));
}

#[test]
fn narrowing_twice_is_narrowing_once_by_the_composition() {
    let h = RootHandle::new(joe_of_winchester());
    let two_steps = h
        .narrow(|p: &mut Person| &mut p.address)
        .narrow(|a: &mut Address| &mut a.city);
    let one_step = h.narrow(|p: &mut Person| &mut p.address.city);
    assert_eq!(two_steps.execute(|c| c.zip), Ok(47394));
    assert_eq!(one_step.execute(|c| c.zip), Ok(47394));
    assert_eq!(two_steps.execute(|c| {
        c.zip = 47395;
        c.name
    }), Ok("Winchester"));
    assert_eq!(one_step.execute(|c| c.zip), Ok(47395));
    assert_eq!(one_step.execute(|c| {
        c.name = "Lynn";
        c.zip
    }), Ok(47395));
    assert_eq!(two_steps.execute(|c| c.name), Ok("Lynn"));
    assert_eq!(h.execute(|p| (p.name, p.address.street, p.address.city.name)), Ok(("joe", "1526 S Base", "Lynn")));
}

#[test]
fn a_composed_reference_is_built_from_any_capability() {
    let h = RootHandle::new(flock_a());
    let animals = ComposedReference::new(h.clone(), |f: &mut Flock| &mut f.animals);
    assert_eq!(animals.exec(|v| v.push(beast("x1", 7))), Ok(()));
    let first = IndexedReference::new(animals.clone(), 0);
    let weight = ComposedReference::new(first, |b: &mut Beast| &mut b.weight);
    assert_eq!(weight.execute(|w| {
        *w += 1;
        *w
    }), Ok(8));
    assert_eq!(weight.exec(|w| *w), Ok(8));
    assert_eq!(h.execute(|f| f.animals[0].weight), Ok(8));
}

#[test]
fn replace_installs_a_new_root_under_old_references() {
    let h = RootHandle::new(flock_a());
    let name = h.narrow(|f: &mut Flock| &mut f.name);
    assert_eq!(name.execute(|n| n.clone()), Ok("A".to_string()));
    let mut other = flock_a();
    other.name = "B".to_string();
    other.counter = 9;
    assert_eq!(h.replace(other), Ok(flock_a()));
    assert_eq!(name.execute(|n| n.clone()), Ok("B".to_string()));
    assert_eq!(h.execute(|f| f.counter), Ok(9));
}

#[test]
fn a_stale_index_is_answered_with_not_found() {
    let h = RootHandle::new(Flock {
        name: "A".to_string(),
        animals: vec![beast("a", 1), beast("b", 2), beast("c", 3)],
        counter: 0,
    });
    let animals = h.narrow(|f: &mut Flock| &mut f.animals);
    let third = animals.narrow_at(2);
    let second = animals.narrow_at(1);
    assert_eq!(third.try_execute(|b| b.id[0].clone()), Ok("c".to_string()));
    assert_eq!(second.try_execute(|b| b.id[0].clone()), Ok("b".to_string()));

    assert_eq!(animals.execute(|v| v.remove(0)), Ok(beast("a", 1)));

    // index 2 is now past the end: the closure is not called
    let mut called = false;
    assert_eq!(
        third.try_execute(|b| {
            called = true;
            b.id[0].clone()
        }),
        Err(ReferenceError::NotFound)
    );
    assert!(!called);
    // index 1 is still in range and now names what was the third element
    assert_eq!(second.try_execute(|b| b.id[0].clone()), Ok("c".to_string()));
    assert_eq!(h.execute(|f| f.animals.len()), Ok(2));
    // the same outcome through the capability itself
    assert_eq!(third.exec(|b| b.weight), Err(ReferenceError::NotFound));
}

#[test]
fn a_lookup_by_key_finds_or_misses() {
    let h = RootHandle::new(Flock {
        name: "A".to_string(),
        animals: vec![beast("a", 1), beast("b", 2)],
        counter: 0,
    });
    let b = h.try_narrow(|f: &mut Flock| f.animals.iter_mut().find(|x| x.id[0] == "b"));
    assert_eq!(b.try_execute(|x| x.weight), Ok(2));
    assert_eq!(b.try_execute(|x| {
        x.id[0] = "z".to_string();
        x.weight
    }), Ok(2));
    assert_eq!(b.try_execute(|x| x.weight), Err(ReferenceError::NotFound));
    assert_eq!(b.clone().exec(|x| x.weight), Err(ReferenceError::NotFound));
    let z = DynamicReference::new(h.clone(), |f: &mut Flock| {
        f.animals.iter_mut().find(|x| x.id[0] == "z")
    });
    assert_eq!(z.try_execute(|x| x.weight), Ok(2));
    let weight_of_z = z.clone();
    assert_eq!(h.execute(|f| f.animals.clear()), Ok(()));
    assert_eq!(weight_of_z.try_execute(|x| x.weight), Err(ReferenceError::NotFound));
}

#[test]
fn a_lookup_under_a_reference_finds_or_misses() {
    let h = RootHandle::new(Flock {
        name: "A".to_string(),
        animals: vec![beast("a", 1), beast("b", 2)],
        counter: 0,
    });
    let animals = h.narrow(|f: &mut Flock| &mut f.animals);
    let heavy = animals.try_narrow(|v: &mut Vec<Beast>| v.iter_mut().find(|x| x.weight > 1));
    assert_eq!(heavy.try_execute(|x| x.id[0].clone()), Ok("b".to_string()));
    assert_eq!(heavy.try_execute(|x| x.weight = 0), Ok(()));
    assert_eq!(heavy.try_execute(|x| x.id[0].clone()), Err(ReferenceError::NotFound));
}

#[test]
fn the_helpers_of_the_locked_section_run_the_closure_in_place() {
    let mut f = Flock {
        name: "A".to_string(),
        animals: vec![beast("a", 1), beast("b", 2)],
        counter: 3,
    };
    assert_eq!(apply(&mut f, |x| {
        x.counter += 1;
        x.counter
    }), 4);
    assert_eq!(f.counter, 4);
    assert_eq!(apply_through(&mut f, &animals_of, |v| {
        v.push(beast("c", 3));
        v.len()
    }), 3);
    assert_eq!(f.animals.len(), 3);
    assert_eq!(try_apply_through(&mut f, &sixth_of, |b| b.weight), Err(ReferenceError::NotFound));
    assert_eq!(try_apply_through(&mut f, &second_of, |b| {
        b.weight = 20;
        b.id[0].clone()
    }), Ok("b".to_string()));
    assert_eq!(f.animals[1].weight, 20);
    assert_eq!(apply_at(&mut f.animals, 2, |b| {
        b.weight += 1;
        b.weight
    }), Ok(4));
    assert_eq!(apply_at(&mut f.animals, 3, |b| b.weight), Err(ReferenceError::NotFound));
    assert_eq!(f.animals, vec![beast("a", 1), beast("b", 20), beast("c", 4)]);
    let mut n = 5;
    assert_eq!(swap_in(&mut n, 6), 5);
    assert_eq!(n, 6);
}

#[test]
fn only_not_found_is_recoverable() {
    assert!(ReferenceError::NotFound.is_recoverable());
    assert!(!ReferenceError::PoisonedState.is_recoverable());
    assert_ne!(ReferenceError::NotFound, ReferenceError::PoisonedState);
}

#[test]
fn no_update_is_lost_between_clones_taking_turns() {
    let h = RootHandle::new(flock_a());
    let counter = h.narrow(|f: &mut Flock| &mut f.counter);
    let workers: Vec<_> = (0..8).map(|_| counter.clone()).collect();
    for _ in 0..1000 {
        for worker in &workers {
            assert_eq!(worker.execute(|c| *c += 1), Ok(()));
        }
    }
    assert_eq!(h.execute(|f| f.counter), Ok(8000));
}

#[test]
fn a_sound_root_is_not_poisoned() {
    let h = RootHandle::new(flock_a());
    let name = h.narrow(|f: &mut Flock| &mut f.name);
    assert!(!h.is_poisoned());
    assert_eq!(name.execute(|n| n.push('!')), Ok(()));
    assert!(!h.is_poisoned());
    assert!(!h.clone().is_poisoned());
    assert_eq!(h.replace(flock_a()).map(|old| old.name), Ok("A!".to_string()));
    assert!(!h.is_poisoned());
}

#[test]
fn reset_on_a_sound_root_installs_the_value() {
    let h = RootHandle::new(flock_a());
    let mut other = flock_a();
    other.counter = 5;
    let name = h.narrow(|f: &mut Flock| &mut f.name);
    h.reset(other);
    assert!(!h.is_poisoned());
    assert_eq!(h.execute(|f| f.counter), Ok(5));
    let mut renamed = flock_a();
    renamed.name = "fresh".to_string();
    h.clone().reset(renamed);
    assert_eq!(name.execute(|n| n.clone()), Ok("fresh".to_string()));
    assert_eq!(h.execute(|f| f.counter), Ok(0));
}
