// Each kind of wrapper, alone and nested, against the host held directly.
use quack::Action;
use quack::Get;
use quack::GetSet;
use quack::Put;
use std::cell::RefCell;
use std::rc::Rc;

#[derive(Debug, Clone, PartialEq)]
pub struct Lamp {
    pub level: u8,
    pub switched: u32,
}

pub struct Level(pub u8);

pub struct Toggle;

// Read only: how often the lamp was switched.
pub struct Switched(pub u32);

// Write only: the level, given in percent.
pub struct Percent(pub u8);

impl Get<Level> for Lamp {
    fn get(&self) -> Level {
        Level(self.level)
    }
}

impl Put<Level> for Lamp {
    fn set(&mut self, val: Level) {
        self.level = val.0
    }
}

impl Action<Toggle> for Lamp {
    type Result = bool;

    fn action(&mut self, _: Toggle) -> bool {
        self.switched += 1;
        self.level = if self.level == 0 { 255 } else { 0 };
        self.level != 0
    }
}

impl Get<Switched> for Lamp {
    fn get(&self) -> Switched {
        Switched(self.switched)
    }
}

impl Put<Percent> for Lamp {
    fn set(&mut self, val: Percent) {
        let percent = if val.0 > 100 { 100 } else { val.0 as u32 };
        self.level = (percent * 255 / 100) as u8
    }
}

fn switched<H: Get<Switched>>(host: &H) -> u32 {
    let Switched(n) = host.get();
    n
}

fn dim<H: Put<Percent>>(host: &mut H, percent: u8) {
    host.set(Percent(percent));
}

fn lamp() -> Lamp {
    Lamp { level: 0, switched: 0 }
}

// What a run of every operation shows of the host: each value read and each
// result of the action.
fn run<H>(host: &mut H) -> (u8, bool, u8, u8, bool, u8)
where
    H: GetSet<Level> + Action<Toggle, Result = bool>,
{
    let Level(a) = host.get();
    let b = host.action(Toggle);
    let Level(c) = host.get();
    host.set(Level(17));
    let Level(d) = host.get();
    let e = host.action(Toggle);
    let Level(f) = host.get();
    (a, b, c, d, e, f)
}

fn read<H: Get<Level>>(host: &H) -> u8 {
    let Level(level) = host.get();
    level
}

const SEEN: (u8, bool, u8, u8, bool, u8) = (0, true, 255, 17, false, 0);

fn after_run() -> Lamp {
    Lamp { level: 0, switched: 2 }
}

#[test]
fn run_on_the_host_itself() {
    let mut host = lamp();
    assert_eq!(run(&mut host), SEEN);
    assert_eq!(host, after_run());
}

#[test]
fn run_in_a_box() {
    let mut boxed = Box::new(lamp());
    assert_eq!(run(&mut boxed), SEEN);
    assert_eq!(*boxed, after_run());
}

#[test]
fn run_behind_an_exclusive_reference() {
    let mut host = lamp();
    let mut by_ref = &mut host;
    assert_eq!(run(&mut by_ref), SEEN);
    assert_eq!(host, after_run());
}

#[test]
fn run_in_a_cell() {
    let mut cell = RefCell::new(lamp());
    assert_eq!(run(&mut cell), SEEN);
    assert_eq!(cell.into_inner(), after_run());
}

#[test]
fn run_behind_a_shared_reference_to_a_cell() {
    let cell = RefCell::new(lamp());
    let mut by_ref = &cell;
    assert_eq!(run(&mut by_ref), SEEN);
    assert_eq!(cell.into_inner(), after_run());
}

#[test]
fn run_in_a_counted_cell() {
    let mut counted = Rc::new(RefCell::new(lamp()));
    assert_eq!(run(&mut counted), SEEN);
    assert_eq!(*counted.borrow(), after_run());
}

#[test]
fn read_behind_a_shared_reference() {
    let host = Lamp { level: 9, switched: 0 };
    assert_eq!(read(&host), 9);
    assert_eq!(read(&&host), 9);
    assert_eq!(read(&&&host), 9);
    let boxed = Box::new(Lamp { level: 11, switched: 0 });
    assert_eq!(read(&&boxed), 11);
}

#[test]
fn run_in_a_box_in_a_box() {
    let mut boxes = Box::new(Box::new(lamp()));
    assert_eq!(run(&mut boxes), SEEN);
    assert_eq!(**boxes, after_run());
}

#[test]
fn run_in_a_counted_cell_around_a_box() {
    let mut nested = Rc::new(RefCell::new(Box::new(lamp())));
    assert_eq!(run(&mut nested), SEEN);
    assert_eq!(**nested.borrow(), after_run());

    let mut one_layer = Rc::new(RefCell::new(lamp()));
    assert_eq!(run(&mut one_layer), run(&mut Rc::new(RefCell::new(Box::new(lamp())))));
    assert_eq!(*one_layer.borrow(), **nested.borrow());
}

#[test]
fn run_behind_a_reference_to_a_box() {
    let mut boxed = Box::new(lamp());
    let mut by_ref = &mut boxed;
    assert_eq!(run(&mut by_ref), SEEN);
    assert_eq!(*boxed, after_run());
}

#[test]
fn run_in_a_box_around_a_cell() {
    let mut nested = Box::new(RefCell::new(lamp()));
    assert_eq!(run(&mut nested), SEEN);
    assert_eq!(nested.into_inner(), after_run());
}

#[test]
fn run_through_four_layers() {
    let mut host = lamp();
    {
        let mut nested = Rc::new(RefCell::new(Box::new(Box::new(&mut host))));
        assert_eq!(run(&mut nested), SEEN);
    }
    assert_eq!(host, after_run());
}

#[test]
fn run_in_a_counted_cell_around_a_counted_cell() {
    let inner = Rc::new(RefCell::new(lamp()));
    let mut nested = Rc::new(RefCell::new(inner.clone()));
    assert_eq!(run(&mut nested), SEEN);
    assert_eq!(*inner.borrow(), after_run());
}

#[test]
fn borrow_is_given_back_after_each_operation() {
    let cell = RefCell::new(lamp());
    let mut by_ref = &cell;

    let Level(_) = by_ref.get();
    assert!(cell.try_borrow_mut().is_ok());
    by_ref.set(Level(3));
    assert!(cell.try_borrow_mut().is_ok());
    by_ref.action(Toggle);
    assert!(cell.try_borrow_mut().is_ok());

    let mut counted = Rc::new(RefCell::new(lamp()));
    let Level(_) = counted.get();
    assert!(counted.try_borrow_mut().is_ok());
    counted.set(Level(3));
    assert!(counted.try_borrow_mut().is_ok());
    counted.action(Toggle);
    assert!(counted.try_borrow_mut().is_ok());
}

#[test]
fn read_goes_on_beside_a_shared_borrow() {
    let cell = RefCell::new(Lamp { level: 5, switched: 0 });
    let held = cell.borrow();
    let Level(level) = cell.get();
    assert_eq!(level, 5);
    assert_eq!(held.level, 5);
}

#[test]
fn write_in_one_owner_is_read_in_another() {
    let mut writer = Rc::new(RefCell::new(lamp()));
    let reader = writer.clone();
    writer.set(Level(200));
    assert_eq!(read(&reader), 200);
    assert_eq!(writer.action(Toggle), false);
    assert_eq!(read(&reader), 0);
    assert_eq!(reader.borrow().switched, 1);
}

#[test]
fn property_that_is_only_read() {
    let host = Lamp { level: 1, switched: 6 };
    assert_eq!(switched(&host), 6);
    assert_eq!(switched(&&host), 6);
    assert_eq!(switched(&Box::new(host.clone())), 6);
    assert_eq!(switched(&RefCell::new(host.clone())), 6);
    assert_eq!(switched(&Rc::new(RefCell::new(host.clone()))), 6);
    let mut target = host.clone();
    assert_eq!(switched(&&mut target), 6);
}

#[test]
fn property_that_is_only_written() {
    let mut host = lamp();
    dim(&mut host, 100);
    assert_eq!(host.level, 255);
    dim(&mut host, 20);
    assert_eq!(host.level, 51);
    dim(&mut host, 250);
    assert_eq!(host.level, 255);

    let mut boxed = Box::new(lamp());
    dim(&mut boxed, 20);
    assert_eq!(boxed.level, 51);

    let mut target = lamp();
    dim(&mut &mut target, 40);
    assert_eq!(target.level, 102);

    let cell = RefCell::new(lamp());
    dim(&mut &cell, 60);
    assert_eq!(cell.borrow().level, 153);

    let mut counted = Rc::new(RefCell::new(lamp()));
    dim(&mut counted, 0);
    assert_eq!(counted.borrow().level, 0);
    dim(&mut counted, 80);
    assert_eq!(counted.borrow().level, 204);
}
