use dilib::fruits::{
    decide_seed, filter_by_color, seed_fruits, AlreadyInitialized, Color, Db, DbInitializer, Fruit, FruitRepository,
    FruitService, Repository,
};
use dilib::Container;
use std::sync::RwLock;

fn wired() -> Container {
    let mut container = Container::new();
    container.add_singleton::<Db>(RwLock::new(vec![])).unwrap();
    container
        .add_deps_fn(|c| FruitRepository::new(c.get_singleton::<Db>().unwrap()))
        .unwrap();
    container
        .add_deps_fn(|c| FruitService::new(c.get_scoped::<FruitRepository>().unwrap()))
        .unwrap();
    container
        .add_deps_fn(|c| DbInitializer(c.get_singleton::<Db>().unwrap()))
        .unwrap();
    container
}

#[test]
fn seeded_catalogue_by_color() {
    let container = wired();
    let initializer = container.get_scoped::<DbInitializer>().unwrap();
    assert!(initializer.init().is_ok());
    assert!(initializer.init().is_err());

    let service = container.get_scoped::<FruitService>().unwrap();
    service.add_all(vec![
        Fruit { name: "Grapes", color: Color::Green },
        Fruit { name: "Raspberries", color: Color::Red },
    ]);

    let red: Vec<&str> = service
        .get_all_by_color(Some(Color::Red))
        .iter()
        .map(|f| f.name)
        .collect();
    assert_eq!(red, vec!["Apple", "Strawberry", "Cherry", "Pomegranate", "Raspberries"]);
    assert_eq!(service.get_all_by_color(Some(Color::Yellow)).len(), 4);
    assert_eq!(service.get_all_by_color(Some(Color::Orange)).len(), 3);
    assert_eq!(service.get_all_by_color(Some(Color::Green)).len(), 7);
    assert_eq!(service.get_all_by_color(None).len(), 19);
}

#[test]
fn repository_shares_the_store() {
    let container = wired();
    let a = container.get_scoped::<FruitRepository>().unwrap();
    let b = container.get_scoped::<FruitRepository>().unwrap();
    a.add(Fruit { name: "Fig", color: Color::Green });
    assert_eq!(b.get_all().len(), 1);
    assert_eq!(b.get_all()[0].name, "Fig");
}

#[test]
fn filter_keeps_order_and_color() {
    let fruits = seed_fruits();
    assert_eq!(fruits.len(), 17);
    let green: Vec<&str> = filter_by_color(fruits.clone(), Some(Color::Green))
        .iter()
        .map(|f| f.name)
        .collect();
    assert_eq!(green, vec!["Pear", "Watermelon", "Kiwi", "Avocado", "Coconut", "Lime"]);
    assert_eq!(filter_by_color(fruits.clone(), None).len(), 17);
    assert!(filter_by_color(vec![], Some(Color::Red)).is_empty());
}

#[test]
fn seeding_decision_and_list() {
    assert_eq!(decide_seed(0), Ok(()));
    assert_eq!(decide_seed(1), Err(AlreadyInitialized));
    assert_eq!(decide_seed(17), Err(AlreadyInitialized));

    let seed = seed_fruits();
    assert_eq!(seed[0], Fruit { name: "Apple", color: Color::Red });
    assert_eq!(seed[2], Fruit { name: "Orange", color: Color::Orange });
    assert_eq!(seed[16], Fruit { name: "Lime", color: Color::Green });
}
