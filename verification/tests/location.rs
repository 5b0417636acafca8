use bodega::location::{contrary, get_string_name, Procedencia};

#[test]
fn opposite_of_each_location() {
    assert_eq!(contrary(&Procedencia::Casa), Procedencia::Tara);
    assert_eq!(contrary(&Procedencia::Tara), Procedencia::Casa);
}

#[test]
fn opposite_twice_is_the_location_itself() {
    for location in [Procedencia::Casa, Procedencia::Tara] {
        assert_eq!(contrary(&contrary(&location)), location);
        assert_ne!(contrary(&location), location);
    }
}

#[test]
fn names_of_the_locations() {
    assert_eq!(get_string_name(&Procedencia::Casa), "Casa");
    assert_eq!(get_string_name(&Procedencia::Tara), "Tara");
}
