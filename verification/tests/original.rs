use plants_vs_zombies::game::GameMod;

#[test]
fn test() {}

#[test]
fn result_test() -> Result<(), String> {
    if 2 + 2 == 4 {
        Ok(())
    } else {
        Err(String::from("two plus two does not equal four"))
    }
}

#[test]
fn difficulty_multiplier() {
    assert_eq!(GameMod::Common.mod_to_num(), 1);
    assert_eq!(GameMod::Hard.mod_to_num(), 2);
}
