//! A small fruit catalogue whose parts the container wires together: a shared
//! store, a repository over it, a service that filters by color, and a seeder.
use crate::container::Singleton;
use std::sync::RwLock;
use vstd::prelude::*;

verus! {

#[verifier::external_type_specification]
#[verifier::external_body]
#[verifier::reject_recursive_types(T)]
pub struct ExRwLock<T: ?Sized>(std::sync::RwLock<T>);

/// Relies on `std::sync::RwLock::new`: a lock around the value.
pub assume_specification<T>[ std::sync::RwLock::<T>::new ](value: T) -> std::sync::RwLock<T>;

/// The color of a fruit.
#[derive(Debug, Clone, Copy, PartialEq, Eq, Structural)]
pub enum Color {
    Red,
    Yellow,
    Orange,
    Green,
}

/// A fruit of the catalogue.
#[derive(Debug, Clone, Copy, PartialEq, Eq)]
pub struct Fruit {
    pub name: &'static str,
    pub color: Color,
}

/// The shared store of fruits.
pub type Db = RwLock<Vec<Fruit>>;

/// Relies on `RwLock::read`: a copy of the fruits in the store at the moment
/// of the read.
#[verifier::external_body]
fn read_fruits(db: &Db) -> (r: Vec<Fruit>) {
    match db.read() {
        Ok(guard) => guard.clone(),
        Err(poisoned) => poisoned.into_inner().clone(),
    }
}

/// Relies on `RwLock::read`: the number of fruits in the store at the moment
/// of the read.
#[verifier::external_body]
fn count_fruits(db: &Db) -> (r: usize) {
    match db.read() {
        Ok(guard) => guard.len(),
        Err(poisoned) => poisoned.into_inner().len(),
    }
}

/// Relies on `RwLock::write`: appends the fruits to the store.
#[verifier::external_body]
fn append_fruits(db: &Db, fruits: Vec<Fruit>) {
    match db.write() {
        Ok(mut guard) => guard.extend(fruits),
        Err(poisoned) => poisoned.into_inner().extend(fruits),
    }
}

/// A store of items.
pub trait Repository<T> {
    /// All the items of the store.
    fn get_all(&self) -> Vec<T>;

    /// Adds an item to the store.
    fn add(&self, item: T);
}

/// The repository of fruits over the shared store.
pub struct FruitRepository {
    db: Singleton<Db>,
}

impl FruitRepository {
    /// A repository over the store.
    pub fn new(db: Singleton<Db>) -> (r: FruitRepository) {
        FruitRepository { db }
    }
}

impl Repository<Fruit> for FruitRepository {
    fn get_all(&self) -> (r: Vec<Fruit>) {
        read_fruits(&self.db)
    }

    fn add(&self, fruit: Fruit) {
        let mut one: Vec<Fruit> = Vec::new();
        one.push(fruit);
        append_fruits(&self.db, one);
    }
}

/// The fruits of `fruits` that have the color asked for; all of them if no
/// color is asked for.
pub open spec fn of_color(fruits: Seq<Fruit>, color: Option<Color>) -> Seq<Fruit> {
    match color {
        Some(c) => fruits.filter(|f: Fruit| f.color == c),
        None => fruits,
    }
}

/// Keeps, in order, the fruits that have the color asked for; all of them if
/// no color is asked for.
pub fn filter_by_color(fruits: Vec<Fruit>, color: Option<Color>) -> (r: Vec<Fruit>)
    ensures
        r@ == of_color(fruits@, color),
{
    match color {
        None => fruits,
        Some(c) => {
            let ghost pred = |f: Fruit| f.color == c;
            let mut out: Vec<Fruit> = Vec::new();
            let mut i: usize = 0;
            while i < fruits.len()
                invariant
                    0 <= i <= fruits@.len(),
                    pred == (|f: Fruit| f.color == c),
                    out@ == fruits@.subrange(0, i as int).filter(pred),
                decreases fruits@.len() - i,
            {
                let f = fruits[i];
                proof {
                    let next = fruits@.subrange(0, i as int + 1);
                    assert(next.drop_last() =~= fruits@.subrange(0, i as int));
                    assert(next.last() == f);
                    reveal(Seq::filter);
                }
                if f.color == c {
                    out.push(f);
                }
                i = i + 1;
            }
            proof {
                assert(fruits@.subrange(0, fruits@.len() as int) =~= fruits@);
            }
            out
        },
    }
}

/// The catalogue's operations.
pub struct FruitService {
    repository: FruitRepository,
}

impl FruitService {
    /// A service over the repository.
    pub fn new(repository: FruitRepository) -> (r: FruitService) {
        FruitService { repository }
    }

    /// Adds the fruits, in order.
    pub fn add_all(&self, fruits: Vec<Fruit>) {
        let mut i: usize = 0;
        while i < fruits.len()
            invariant
                0 <= i <= fruits@.len(),
            decreases fruits@.len() - i,
        {
            self.repository.add(fruits[i]);
            i = i + 1;
        }
    }

    /// The fruits of the color asked for, in the order of the store; all of
    /// them if no color is asked for.
    pub fn get_all_by_color(&self, color: Option<Color>) -> (r: Vec<Fruit>)
        ensures
            exists|stored: Seq<Fruit>| r@ == of_color(stored, color),
    {
        let fruits = self.repository.get_all();
        filter_by_color(fruits, color)
    }
}

/// The catalogue that an empty store is seeded with, in order.
pub open spec fn seed_list() -> Seq<Fruit> {
    seq![
        Fruit { name: "Apple", color: Color::Red },
        Fruit { name: "Banana", color: Color::Yellow },
        Fruit { name: "Orange", color: Color::Orange },
        Fruit { name: "Pear", color: Color::Green },
        Fruit { name: "Strawberry", color: Color::Red },
        Fruit { name: "Watermelon", color: Color::Green },
        Fruit { name: "Kiwi", color: Color::Green },
        Fruit { name: "Pineapple", color: Color::Yellow },
        Fruit { name: "Mango", color: Color::Orange },
        Fruit { name: "Cherry", color: Color::Red },
        Fruit { name: "Papaya", color: Color::Yellow },
        Fruit { name: "Avocado", color: Color::Green },
        Fruit { name: "Pomegranate", color: Color::Red },
        Fruit { name: "Passionfruit", color: Color::Orange },
        Fruit { name: "Coconut", color: Color::Green },
        Fruit { name: "Lemon", color: Color::Yellow },
        Fruit { name: "Lime", color: Color::Green },
    ]
}

/// The catalogue that an empty store is seeded with.
pub fn seed_fruits() -> (r: Vec<Fruit>)
    ensures
        r@ == seed_list(),
{
    let r = vec![
        Fruit { name: "Apple", color: Color::Red },
        Fruit { name: "Banana", color: Color::Yellow },
        Fruit { name: "Orange", color: Color::Orange },
        Fruit { name: "Pear", color: Color::Green },
        Fruit { name: "Strawberry", color: Color::Red },
        Fruit { name: "Watermelon", color: Color::Green },
        Fruit { name: "Kiwi", color: Color::Green },
        Fruit { name: "Pineapple", color: Color::Yellow },
        Fruit { name: "Mango", color: Color::Orange },
        Fruit { name: "Cherry", color: Color::Red },
        Fruit { name: "Papaya", color: Color::Yellow },
        Fruit { name: "Avocado", color: Color::Green },
        Fruit { name: "Pomegranate", color: Color::Red },
        Fruit { name: "Passionfruit", color: Color::Orange },
        Fruit { name: "Coconut", color: Color::Green },
        Fruit { name: "Lemon", color: Color::Yellow },
        Fruit { name: "Lime", color: Color::Green },
    ];
    proof {
        assert(r@ =~= seed_list());
    }
    r
}

/// The outcome of a seeding for a store of `count` fruits.
pub open spec fn decide_seed_result(count: usize) -> Result<(), AlreadyInitialized> {
    if count == 0 {
        Ok(())
    } else {
        Err(AlreadyInitialized)
    }
}

/// Decides a seeding from the number of fruits the store holds: seed an
/// empty store, refuse any other.
pub fn decide_seed(count: usize) -> (r: Result<(), AlreadyInitialized>)
    ensures
        r == decide_seed_result(count),
{
    if count > 0 {
        Err(AlreadyInitialized)
    } else {
        Ok(())
    }
}

/// Seeds the shared store once.
pub struct DbInitializer(pub Singleton<Db>);

/// The store already holds fruits.
#[derive(Debug, PartialEq, Eq, Structural)]
pub struct AlreadyInitialized;

impl DbInitializer {
    /// Seeds the store with [`seed_fruits`] if it is empty; reports
    /// [`AlreadyInitialized`] otherwise.
    ///
    /// The count and the write are two accesses to the shared store: what the
    /// result says holds of the count that was read.
    pub fn init(&self) -> (r: Result<(), AlreadyInitialized>)
        ensures
            exists|count: usize| r == decide_seed_result(count),
    {
        let count = count_fruits(&self.0);
        let r = decide_seed(count);
        if r.is_ok() {
            append_fruits(&self.0, seed_fruits());
        }
        r
    }
}

} // verus!
