use enigma::plugboard::Plugboard;
use enigma::reflectors::{ReflectorA, ReflectorB};
use enigma::rotors::{RotorEncode, RotorI, RotorII, RotorIII, RotorIV, RotorV};
use enigma::{ArmyEnigma, Enigma, EnigmaError};

#[test]
fn lib_test_simple() {
    let mut machine = ArmyEnigma::new(
        RotorI::new('A', 'A'),
        RotorII::new('A', 'A'),
        RotorIII::new('A', 'A'),
        ReflectorB {},
        None,
    );

    let input: String = "AAAAA".into();
    let expected: String = "BDZGO".into();
    let output: String = input
        .chars()
        .map(|in_char| machine.keypress(in_char).unwrap())
        .collect();

    assert_eq!(expected, output);

    let expected_settings = vec!['A', 'A', 'F'];
    assert_eq!(expected_settings, machine.settings());
}

#[test]
fn lib_test_enigma() {
    let mut machine = ArmyEnigma::new(
        RotorI::new('A', 'A'),
        RotorII::new('A', 'A'),
        RotorIII::new('A', 'A'),
        ReflectorB {},
        None,
    );

    let input: String = "ENIGMA".into();
    let expected: String = "FQGAHW".into();
    let output: String = input
        .chars()
        .map(|in_char| machine.keypress(in_char).unwrap())
        .collect();

    assert_eq!(expected, output);

    let expected_settings = vec!['A', 'A', 'G'];
    assert_eq!(expected_settings, machine.settings());
}

#[test]
fn lib_test_homogenous_rotors() {
    let mut machine = ArmyEnigma::new(
        RotorI::new('A', 'A'),
        RotorI::new('A', 'A'),
        RotorI::new('A', 'A'),
        ReflectorB {},
        None,
    );

    let input: String = "AAA".into();
    let expected: String = "UOT".into();
    let output: String = input
        .chars()
        .map(|in_char| machine.keypress(in_char).unwrap())
        .collect();

    assert_eq!(expected, output);

    let expected_settings = vec!['A', 'A', 'D'];
    assert_eq!(expected_settings, machine.settings());
}

#[test]
fn lib_test_turnover() {
    let mut machine = ArmyEnigma::new(
        RotorI::new('A', 'A'),
        RotorII::new('A', 'D'),
        RotorIII::new('A', 'U'),
        ReflectorB {},
        None,
    );

    let input: String = "AAAAA".into();
    let expected: String = "EQIBM".into();
    let output: String = input
        .chars()
        .map(|in_char| machine.keypress(in_char).unwrap())
        .collect();

    assert_eq!(expected, output);

    let expected_settings = vec!['B', 'F', 'Z'];
    assert_eq!(expected_settings, machine.settings());
}

#[test]
fn lib_test_gap_fog() {
    let mut machine = ArmyEnigma::new(
        RotorI::new('G', 'F'),
        RotorII::new('A', 'O'),
        RotorIII::new('P', 'G'),
        ReflectorB {},
        None,
    );

    let input: String = "ADVANCEMINSK".into();
    let expected: String = "PXBUYVUGEGCI".into();
    let output: String = input
        .chars()
        .map(|in_char| machine.keypress(in_char).unwrap())
        .collect();

    assert_eq!(expected, output);

    let expected_settings = vec!['F', 'O', 'S'];
    assert_eq!(expected_settings, machine.settings());
}

#[test]
fn lib_test_bbb_fog() {
    let mut machine = ArmyEnigma::new(
        RotorI::new('B', 'F'),
        RotorII::new('B', 'O'),
        RotorIII::new('B', 'G'),
        ReflectorB {},
        None,
    );

    let input: String = "ADVANCEMINSK".into();
    let expected: String = "YXLEOPVFDTOY".into();
    let output: String = input
        .chars()
        .map(|in_char| machine.keypress(in_char).unwrap())
        .collect();

    assert_eq!(expected, output);

    let expected_settings = vec!['F', 'O', 'S'];
    assert_eq!(expected_settings, machine.settings());
}

#[test]
fn lib_test_plugboard_input() {
    let mut machine = ArmyEnigma::new(
        RotorI::new('B', 'A'),
        RotorI::new('B', 'A'),
        RotorI::new('B', 'A'),
        ReflectorB {},
        Some(Plugboard::new(&vec![('F', 'T'), ('O', 'B'), ('G', 'U')]).unwrap()),
    );

    let input: String = "FOG".into();
    let expected: String = "AAA".into();
    let output: String = input
        .chars()
        .map(|in_char| machine.keypress(in_char).unwrap())
        .collect();

    assert_eq!(expected, output);

    let expected_settings = vec!['A', 'A', 'D'];
    assert_eq!(expected_settings, machine.settings());
}

#[test]
fn lib_test_plugboard_output() {
    let mut machine = ArmyEnigma::new(
        RotorI::new('B', 'A'),
        RotorI::new('B', 'A'),
        RotorI::new('B', 'A'),
        ReflectorB {},
        Some(Plugboard::new(&vec![('T', 'F'), ('B', 'O'), ('U', 'G')]).unwrap()),
    );

    let input: String = "AAA".into();
    let expected: String = "FOG".into();
    let output: String = input
        .chars()
        .map(|in_char| machine.keypress(in_char).unwrap())
        .collect();

    assert_eq!(expected, output);

    let expected_settings = vec!['A', 'A', 'D'];
    assert_eq!(expected_settings, machine.settings());
}

#[test]
fn lib_test_ring_settings() {
    let mut machine = ArmyEnigma::new(
        RotorI::new('B', 'A'),
        RotorI::new('B', 'A'),
        RotorI::new('B', 'A'),
        ReflectorB {},
        None,
    );

    let input: String = "AAA".into();
    let expected: String = "TBU".into();
    let output: String = input
        .chars()
        .map(|in_char| machine.keypress(in_char).unwrap())
        .collect();

    assert_eq!(expected, output);

    let expected_settings = vec!['A', 'A', 'D'];
    assert_eq!(expected_settings, machine.settings());
}

#[test]
fn lib_test_mirrors_correctly() {
    let mut machine = ArmyEnigma::new(
        RotorIV::new('L', 'F'),
        RotorII::new('E', 'I'),
        RotorV::new('G', 'B'),
        ReflectorA {},
        None,
    );

    let initial: String = "ADVANCEMINSK".into();
    let encoded: String = initial
        .clone()
        .chars()
        .map(|in_char| machine.keypress(in_char).unwrap())
        .collect();

    let mut machine = ArmyEnigma::new(
        RotorIV::new('L', 'F'),
        RotorII::new('E', 'I'),
        RotorV::new('G', 'B'),
        ReflectorA {},
        None,
    );

    let decoded: String = encoded
        .chars()
        .map(|in_char| machine.keypress(in_char).unwrap())
        .collect();

    assert_eq!(initial, decoded);
}

#[test]
fn lib_test_error_handling() {
    let mut machine = ArmyEnigma::new(
        RotorIV::new('L', 'F'),
        RotorII::new('E', 'I'),
        RotorV::new('G', 'B'),
        ReflectorA {},
        None,
    );

    assert!(machine.keypress('É').is_err());
    assert!(machine.keypress('9').is_err());
    assert!(machine.keypress('e').is_err());

    assert_eq!(
        machine.keypress('É'),
        Err(EnigmaError::NonAsciiCharacter('É'))
    );
    assert_eq!(
        machine.keypress('9'),
        Err(EnigmaError::NonAlphabeticCharacter('9'))
    );
    assert_eq!(
        machine.keypress('e'),
        Err(EnigmaError::NonUppercaseCharacter('e'))
    );

    assert_eq!(vec!['F', 'I', 'B'], machine.settings());
}

#[test]
fn test_reset() {
    let mut machine = ArmyEnigma::new(
        RotorI::new('G', 'F'),
        RotorII::new('A', 'O'),
        RotorIII::new('P', 'G'),
        ReflectorB {},
        None,
    );

    let input: String = "ADV".into();
    let expected: String = "PXB".into();
    let output: String = input
        .clone()
        .chars()
        .map(|in_char| machine.keypress(in_char).unwrap())
        .collect();

    assert_eq!(expected, output);

    let expected_settings = vec!['F', 'O', 'J'];
    assert_eq!(expected_settings, machine.settings());

    let output: String = input
        .clone()
        .chars()
        .map(|in_char| machine.keypress(in_char).unwrap())
        .collect();

    assert_ne!(expected, output);
    assert_ne!(expected_settings, machine.settings());

    machine.reset();
    let output: String = input
        .clone()
        .chars()
        .map(|in_char| machine.keypress(in_char).unwrap())
        .collect();

    assert_eq!(expected, output);

    let expected_settings = vec!['F', 'O', 'J'];
    assert_eq!(expected_settings, machine.settings());
}

#[test]
fn test_round_trip_with_plugboard() {
    let build = || {
        ArmyEnigma::new(
            RotorIII::new('C', 'Q'),
            RotorV::new('H', 'K'),
            RotorII::new('A', 'Z'),
            ReflectorB {},
            Some(Plugboard::new(&vec![('A', 'Q'), ('M', 'X'), ('Z', 'B')]).unwrap()),
        )
    };

    let initial: String = "THEQUICKBROWNFOXJUMPSOVERTHELAZYDOG"
        .chars()
        .filter(|c| c.is_ascii_uppercase())
        .collect();
    let mut machine = build();
    let encoded: String = initial
        .chars()
        .map(|in_char| machine.keypress(in_char).unwrap())
        .collect();
    assert_ne!(initial, encoded);

    let mut machine = build();
    let decoded: String = encoded
        .chars()
        .map(|in_char| machine.keypress(in_char).unwrap())
        .collect();
    assert_eq!(initial, decoded);
}

#[test]
fn test_invalid_press_keeps_settings() {
    let mut machine = ArmyEnigma::new(
        RotorI::new('A', 'A'),
        RotorII::new('A', 'D'),
        RotorIII::new('A', 'U'),
        ReflectorB {},
        None,
    );

    machine.keypress('A').unwrap();
    let before = machine.settings();

    assert_eq!(
        machine.keypress('ß'),
        Err(EnigmaError::NonAsciiCharacter('ß'))
    );
    assert_eq!(before, machine.settings());
    assert_eq!(
        machine.keypress(' '),
        Err(EnigmaError::NonAlphabeticCharacter(' '))
    );
    assert_eq!(before, machine.settings());
    assert_eq!(
        machine.keypress('q'),
        Err(EnigmaError::NonUppercaseCharacter('q'))
    );
    assert_eq!(before, machine.settings());
}

#[test]
fn test_plugboard_transpose_on_machine() {
    let machine = ArmyEnigma::new(
        RotorI::new('A', 'A'),
        RotorII::new('A', 'A'),
        RotorIII::new('A', 'A'),
        ReflectorB {},
        Some(Plugboard::new(&vec![('C', 'K')]).unwrap()),
    );

    assert_eq!(machine.plugboard_transpose('C'), 'K');
    assert_eq!(machine.plugboard_transpose('K'), 'C');
    assert_eq!(machine.plugboard_transpose('D'), 'D');
    assert_eq!(machine.plugboard_transpose('!'), '!');
}

#[test]
fn test_error_messages() {
    assert_eq!(
        EnigmaError::NonAsciiCharacter('É').message(),
        "'É' is not an ASCII character"
    );
    assert_eq!(
        EnigmaError::NonAlphabeticCharacter('9').message(),
        "'9' is not an alphabetic character"
    );
    assert_eq!(
        EnigmaError::NonUppercaseCharacter('e').message(),
        "'e' is not an uppercase character"
    );
}
