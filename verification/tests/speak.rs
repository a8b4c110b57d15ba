use animal_speak::{
    animal_behavior, cat_speak, dog_speak, make_animal_speak, make_animal_speak_fn, Animal, Cat,
    Dog, Speak, TrainerConstant, TrainerEum, TrainerFunctionalPointer, TrainerGeneric,
};

#[test]
fn variants_speak_fixed_nonempty_strings() {
    assert_eq!(Dog.speak(), "Woof!");
    assert_eq!(Cat.speak(), "Meow!");
    assert!(!Dog.speak().is_empty());
    assert!(!Cat.speak().is_empty());
}

#[test]
fn speak_is_idempotent() {
    let dog = Dog;
    assert_eq!(dog.speak(), dog.speak());
    let cat = Cat;
    assert_eq!(cat.speak(), cat.speak());
    let animal = Animal::Dog(Dog);
    assert_eq!(animal.speak(), animal.speak());
}

#[test]
fn enum_wrapper_dog_case() {
    let trainer = TrainerEum { animal: Animal::Dog(Dog) };
    assert_eq!(trainer.ask_animal_to_speak(), "Woof!");
}

#[test]
fn enum_wrapper_cat_case() {
    let trainer = TrainerEum { animal: Animal::Cat(Cat) };
    assert_eq!(trainer.ask_animal_to_speak(), "Meow!");
}

#[test]
fn generic_wrapper_matches_direct_call() {
    let trainer = TrainerGeneric { animal: Cat {} };
    assert_eq!(trainer.ask_animal_to_speak(), "Meow!");
    assert_eq!(trainer.ask_animal_to_speak(), Cat.speak());
    assert_eq!(make_animal_speak(&Cat {}), "Meow!");
    assert_eq!(make_animal_speak(&Dog), "Woof!");
}

#[test]
fn function_reference_wrapper_dog_case() {
    let trainer = TrainerFunctionalPointer { speak_fn: dog_speak };
    assert_eq!(trainer.ask_animal_to_speak(), "Woof!");
    assert_eq!(make_animal_speak_fn(dog_speak), "Woof!");
}

#[test]
fn function_reference_wrapper_cat_case() {
    let trainer = TrainerFunctionalPointer { speak_fn: cat_speak };
    assert_eq!(trainer.ask_animal_to_speak(), "Meow!");
    assert_eq!(make_animal_speak_fn(cat_speak), "Meow!");
}

#[test]
fn constant_wrapper_table_entries() {
    let trainer_cat: TrainerConstant<1> = TrainerConstant {};
    assert_eq!(trainer_cat.ask_animal_to_speak(), "Meow!");
    let trainer_dog: TrainerConstant<2> = TrainerConstant {};
    assert_eq!(trainer_dog.ask_animal_to_speak(), "Woof!");
}

#[test]
fn constant_wrapper_fallback() {
    let trainer_zero: TrainerConstant<0> = TrainerConstant {};
    assert_eq!(trainer_zero.ask_animal_to_speak(), "Unknown animal");
    let trainer_three: TrainerConstant<3> = TrainerConstant {};
    assert_eq!(trainer_three.ask_animal_to_speak(), "Unknown animal");
    let trainer_big: TrainerConstant<1000> = TrainerConstant {};
    assert_eq!(trainer_big.ask_animal_to_speak(), "Unknown animal");
}

#[test]
fn animal_behavior_table_and_fallback() {
    assert_eq!(animal_behavior::<1>(), "Meow!");
    assert_eq!(animal_behavior::<2>(), "Woof!");
    assert_eq!(animal_behavior::<0>(), "Unknown animal");
    assert_eq!(animal_behavior::<3>(), "Unknown animal");
}

#[test]
fn entry_sequence_six_lines_in_order() {
    let lines = animal_speak::program_lines();
    assert_eq!(
        lines,
        vec!["Woof!", "Meow!", "Meow!", "Woof!", "Meow!", "Meow!"]
    );
}
