//! Four ways to dispatch one capability.
//!
//! A single capability — produce a greeting string — is implemented by two
//! stateless animals and invoked through four different mechanisms: a closed
//! enum, a generic type bound by the capability trait, a stored function
//! value, and a constant known at compile time. Each mechanism is wrapped in
//! a "trainer" type whose one operation returns the greeting; printing it is
//! left to the caller.

use vstd::prelude::*;

verus! {

/// The greeting of the dog-like animal.
pub open spec fn dog_sound() -> Seq<char> {
    "Woof!"@
}

/// The greeting of the cat-like animal.
pub open spec fn cat_sound() -> Seq<char> {
    "Meow!"@
}

/// The capability contract: produce a greeting string.
///
/// Every implementor fixes its greeting as a spec-level sequence, promises it
/// is non-empty, and returns exactly that greeting from `speak`. Because the
/// result is pinned to a function of the receiver alone, repeated calls on
/// the same receiver return identical strings.
pub trait Speak {
    /// The greeting this animal makes, as a mathematical sequence.
    spec fn sound(&self) -> Seq<char>;

    /// Every animal's greeting is non-empty.
    proof fn sound_is_nonempty(&self)
        ensures
            self.sound().len() > 0,
    ;

    /// Produce the greeting.
    fn speak(&self) -> (r: String)
        ensures
            r@ == self.sound(),
    ;
}

/// The dog-like animal: no state, identity by type alone.
pub struct Dog;

/// The cat-like animal: no state, identity by type alone.
pub struct Cat;

impl Speak for Dog {
    open spec fn sound(&self) -> Seq<char> {
        dog_sound()
    }

    proof fn sound_is_nonempty(&self) {
        reveal_strlit("Woof!");
    }

    fn speak(&self) -> (r: String) {
        "Woof!".to_owned()
    }
}

impl Speak for Cat {
    open spec fn sound(&self) -> Seq<char> {
        cat_sound()
    }

    proof fn sound_is_nonempty(&self) {
        reveal_strlit("Meow!");
    }

    fn speak(&self) -> (r: String) {
        "Meow!".to_owned()
    }
}

/// The capability is a fixed, non-empty greeting: any two results of `speak`
/// on the same receiver are views of one sequence, the receiver's `sound`,
/// and that sequence is never empty — for every implementor alike.
pub proof fn lemma_speak_fixed_nonempty<T: Speak>(v: &T, r1: Seq<char>, r2: Seq<char>)
    requires
        r1 == v.sound(),
        r2 == v.sound(),
    ensures
        r1 == r2,
        r1.len() > 0,
{
    v.sound_is_nonempty();
}

/// The closed set of animals: exactly a dog or a cat, nothing else is
/// constructible. The held variant's own capability decides the greeting.
pub enum Animal {
    Dog(Dog),
    Cat(Cat),
}

impl Speak for Animal {
    open spec fn sound(&self) -> Seq<char> {
        match self {
            Animal::Dog(dog) => dog.sound(),
            Animal::Cat(cat) => cat.sound(),
        }
    }

    proof fn sound_is_nonempty(&self) {
        match self {
            Animal::Dog(dog) => dog.sound_is_nonempty(),
            Animal::Cat(cat) => cat.sound_is_nonempty(),
        }
    }

    fn speak(&self) -> (r: String) {
        match self {
            Animal::Dog(dog) => dog.speak(),
            Animal::Cat(cat) => cat.speak(),
        }
    }
}

/// An `Animal` is exhausted by its two cases, and each case greets exactly
/// as the variant it holds would greet on its own.
pub proof fn lemma_animal_closed_set(a: Animal)
    ensures
        a is Dog || a is Cat,
        a is Dog ==> a.sound() == dog_sound(),
        a is Cat ==> a.sound() == cat_sound(),
{
}

/// Produce any capability-bearing value's greeting.
pub fn make_animal_speak<T: Speak>(animal: &T) -> (r: String)
    ensures
        r@ == animal.sound(),
{
    animal.speak()
}

/// The dog-like greeting as a free function, fit to be stored by reference.
pub fn dog_speak() -> (r: String)
    ensures
        r@ == dog_sound(),
{
    "Woof!".to_owned()
}

/// The cat-like greeting as a free function, fit to be stored by reference.
pub fn cat_speak() -> (r: String)
    ensures
        r@ == cat_sound(),
{
    "Meow!".to_owned()
}

/// Produce the greeting of a stored zero-argument function value.
///
/// Nothing is assumed of the function beyond its own contract: whatever it
/// may return, the result is one of its possible outputs.
pub fn make_animal_speak_fn<F: Fn() -> String>(speak: F) -> (r: String)
    requires
        call_requires(speak, ()),
    ensures
        call_ensures(speak, (), r),
{
    speak()
}

/// Every output of the dog-like function reference is exactly the dog-like
/// greeting, and every output of the cat-like one the cat-like greeting.
pub proof fn lemma_speak_fn_exact(r_dog: String, r_cat: String)
    requires
        call_ensures(dog_speak, (), r_dog),
        call_ensures(cat_speak, (), r_cat),
    ensures
        r_dog@ == dog_sound(),
        r_cat@ == cat_sound(),
{
}

/// The fallback greeting for constants outside the lookup table.
pub open spec fn unknown_sound() -> Seq<char> {
    "Unknown animal"@
}

/// The capability as an associated (receiver-less) operation, so that it can
/// be selected by type at compile time.
pub trait AnimalTrait {
    /// The greeting of this animal type, as a mathematical sequence.
    spec fn trait_sound() -> Seq<char>;

    /// Produce the greeting of this animal type.
    fn speak_animal_trait() -> (r: String)
        ensures
            r@ == Self::trait_sound(),
    ;
}

impl AnimalTrait for Cat {
    open spec fn trait_sound() -> Seq<char> {
        cat_sound()
    }

    fn speak_animal_trait() -> (r: String) {
        "Meow!".to_owned()
    }
}

impl AnimalTrait for Dog {
    open spec fn trait_sound() -> Seq<char> {
        dog_sound()
    }

    fn speak_animal_trait() -> (r: String) {
        "Woof!".to_owned()
    }
}

/// The fixed lookup table of the compile-time-constant dispatch: 1 is the
/// cat-like greeting, 2 the dog-like one, and every other tag the fallback.
pub open spec fn behavior_sound(animal_type: usize) -> Seq<char> {
    if animal_type == 1 {
        cat_sound()
    } else if animal_type == 2 {
        dog_sound()
    } else {
        unknown_sound()
    }
}

/// Exactly the tags 1 and 2 map to an animal's greeting; every other tag,
/// 0 and everything from 3 upward alike, maps to the one fallback string.
pub proof fn lemma_behavior_total(animal_type: usize)
    ensures
        animal_type == 1 ==> behavior_sound(animal_type) == cat_sound(),
        animal_type == 2 ==> behavior_sound(animal_type) == dog_sound(),
        animal_type != 1 && animal_type != 2 ==> behavior_sound(animal_type) == unknown_sound(),
{
}

/// Produce the greeting selected by a compile-time tag.
pub fn animal_behavior<const ANIMAL_TYPE: usize>() -> (r: String)
    ensures
        r@ == behavior_sound(ANIMAL_TYPE),
{
    match ANIMAL_TYPE {
        1 => Cat::speak_animal_trait(),
        2 => Dog::speak_animal_trait(),
        _ => "Unknown animal".to_owned(),
    }
}

/// Trainer dispatching through the closed enum: a runtime tag picks the case.
pub struct TrainerEum {
    pub animal: Animal,
}

impl TrainerEum {
    /// Ask the held animal to speak; the greeting is returned for printing.
    pub fn ask_animal_to_speak(&self) -> (r: String)
        ensures
            r@ == self.animal.sound(),
    {
        self.animal.speak()
    }
}

/// Trainer dispatching through a generic bound: the concrete animal type is
/// fixed at compile time per instantiation, with no runtime tag.
pub struct TrainerGeneric<T: Speak> {
    pub animal: T,
}

impl<T: Speak> TrainerGeneric<T> {
    /// Ask the held animal to speak: the result equals what the capability
    /// returns when called directly on the held value.
    pub fn ask_animal_to_speak(&self) -> (r: String)
        ensures
            r@ == self.animal.sound(),
    {
        make_animal_speak(&self.animal)
    }
}

/// Trainer dispatching through a stored zero-argument function value.
pub struct TrainerFunctionalPointer<F: Fn() -> String> {
    pub speak_fn: F,
}

impl<F: Fn() -> String> TrainerFunctionalPointer<F> {
    /// Invoke the stored function: the result is one of its possible outputs.
    pub fn ask_animal_to_speak(&self) -> (r: String)
        requires
            call_requires(&self.speak_fn, ()),
        ensures
            call_ensures(&self.speak_fn, (), r),
    {
        (self.speak_fn)()
    }
}

/// Trainer dispatching through a compile-time constant: the tag is part of
/// the type and the wrapper carries no runtime state at all.
pub struct TrainerConstant<const ANIMAL_TYPE: usize> {}

impl<const ANIMAL_TYPE: usize> TrainerConstant<ANIMAL_TYPE> {
    /// Look the tag up in the fixed table; out-of-table tags fall back to
    /// the one defined "unknown" greeting.
    pub fn ask_animal_to_speak(&self) -> (r: String)
        ensures
            r@ == behavior_sound(ANIMAL_TYPE),
    {
        animal_behavior::<ANIMAL_TYPE>()
    }
}

/// The entry sequence: one instance of each trainer kind is built and asked
/// to speak, in a fixed order, with no branching on outside input. The six
/// greetings come back in that order, ready to be printed one per line.
pub fn program_lines() -> (r: Vec<String>)
    ensures
        r@.len() == 6,
        r@[0]@ == dog_sound(),
        r@[1]@ == cat_sound(),
        r@[2]@ == cat_sound(),
        r@[3]@ == dog_sound(),
        r@[4]@ == cat_sound(),
        r@[5]@ == cat_sound(),
{
    let mut lines: Vec<String> = Vec::new();

    let trainer_enum_dog = TrainerEum { animal: Animal::Dog(Dog) };
    lines.push(trainer_enum_dog.ask_animal_to_speak());

    let trainer_enum_cat = TrainerEum { animal: Animal::Cat(Cat) };
    lines.push(trainer_enum_cat.ask_animal_to_speak());

    let cat: Cat = Cat {};
    let trainer_generic = TrainerGeneric { animal: cat };
    lines.push(trainer_generic.ask_animal_to_speak());

    let trainer_func_pointer_dog = TrainerFunctionalPointer { speak_fn: dog_speak };
    lines.push(trainer_func_pointer_dog.ask_animal_to_speak());

    let trainer_func_pointer_cat = TrainerFunctionalPointer { speak_fn: cat_speak };
    lines.push(trainer_func_pointer_cat.ask_animal_to_speak());

    let trainer_constant: TrainerConstant<1> = TrainerConstant {};
    lines.push(trainer_constant.ask_animal_to_speak());

    lines
}

} // verus!
