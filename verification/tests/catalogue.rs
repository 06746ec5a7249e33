use toy_interferometer::catalogue::{get_array_from_name, select_antennas};
use toy_interferometer::table::{AntennaTable, Position};

fn names_of(table: &AntennaTable) -> Vec<String> {
    (0..table.len()).map(|i| table.name(i)).collect()
}

#[test]
fn emerlin_stations_walk_in_name_order() {
    let table = get_array_from_name("e-MERLIN");
    assert_eq!(
        names_of(&table),
        vec!["Cambridge", "Darnhall", "Defford", "Knockin", "Lovell", "MarkII", "Pickmere"]
    );
}

#[test]
fn lambda_stations_walk_in_name_order() {
    let table = get_array_from_name("LAMBDA");
    assert_eq!(names_of(&table), vec!["Ceduna", "Hobart", "Narrabri", "Parkes", "Perth"]);
}

#[test]
fn lofar_has_eighty_stations_sorted_bytewise() {
    let table = get_array_from_name("LOFAR");
    let names = names_of(&table);
    assert_eq!(names.len(), 80);
    assert_eq!(names[0], "BG");
    assert_eq!(names[1], "CS001HBA0");
    assert_eq!(names[47], "CZ");
    assert_eq!(names[48], "CZ-Ondrejov");
    assert_eq!(names[79], "UK608HBA");
    for pair in names.windows(2) {
        assert!(pair[0] < pair[1]);
    }
}

#[test]
fn unknown_array_names_get_the_default_pair() {
    for name in ["", "lofar", "MERLIN", "VLA"] {
        let table = get_array_from_name(name);
        assert_eq!(names_of(&table), vec!["IE613HBA", "PL611HBA"]);
    }
}

#[test]
fn lovell_position_in_units() {
    let table = get_array_from_name("e-MERLIN");
    assert_eq!(
        table.position(4),
        Position { x: 382_262_604_000_000, y: -15_410_565_000_000, z: 508_648_604_000_000 }
    );
}

#[test]
fn zero_filter_byte_drops_the_matching_station() {
    let table = select_antennas("e-MERLIN", &[1, 0, 1]);
    assert_eq!(
        names_of(&table),
        vec!["Cambridge", "Defford", "Knockin", "Lovell", "MarkII", "Pickmere"]
    );
}

#[test]
fn empty_filter_keeps_every_station() {
    let table = select_antennas("LAMBDA", &[]);
    assert_eq!(table.len(), 5);
}

#[test]
fn nonzero_filter_bytes_keep_every_station() {
    let table = select_antennas("LAMBDA", &[1, 2, 255, 7, 9]);
    assert_eq!(names_of(&table), vec!["Ceduna", "Hobart", "Narrabri", "Parkes", "Perth"]);
}

#[test]
fn filter_bytes_beyond_the_stations_are_ignored() {
    let table = select_antennas("anything", &[1, 0, 0, 0, 0]);
    assert_eq!(names_of(&table), vec!["IE613HBA"]);
}

#[test]
fn all_zero_filter_drops_every_station() {
    let table = select_antennas("LAMBDA", &[0, 0, 0, 0, 0]);
    assert_eq!(table.len(), 0);
}

#[test]
fn catalogue_sizes_and_radii() {
    for (name, size) in [("LOFAR", 80), ("e-MERLIN", 7), ("LAMBDA", 5), ("elsewhere", 2)] {
        let table = get_array_from_name(name);
        assert_eq!(table.len(), size);
        for i in 0..table.len() {
            let p = table.position(i);
            let r2 = (p.x as i128) * (p.x as i128) + (p.y as i128) * (p.y as i128) + (p.z as i128) * (p.z as i128);
            let lo = 630_000_000_000_000i128 * 630_000_000_000_000i128;
            let hi = 640_000_000_000_000i128 * 640_000_000_000_000i128;
            assert!(lo < r2 && r2 < hi, "{}", table.name(i));
        }
    }
}
