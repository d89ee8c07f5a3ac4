use enigma::plugboard::{Plugboard, PlugboardError};
use std::collections::HashMap;

#[test]
fn test_macro_one() {
    let board = Plugboard::new(&vec![('A', 'E')]).unwrap();

    assert_eq!(board.transpose('A'), 'E');
    assert_eq!(board.transpose('E'), 'A');
    assert_eq!(board.transpose('Z'), 'Z');
}

#[test]
fn test_macro_many() {
    let board = Plugboard::new(&vec![('A', 'E'), ('F', 'J'), ('M', 'G')]).unwrap();

    assert_eq!(board.transpose('A'), 'E');
    assert_eq!(board.transpose('E'), 'A');
    assert_eq!(board.transpose('F'), 'J');
    assert_eq!(board.transpose('J'), 'F');
    assert_eq!(board.transpose('M'), 'G');
    assert_eq!(board.transpose('G'), 'M');
    assert_eq!(board.transpose('Z'), 'Z');
}

#[test]
fn test_instantiation_errors() {
    let board = Plugboard::new(&vec![('É', 'A')]);

    assert!(board.is_err());
    assert_eq!(board, Err(PlugboardError::InvalidCharacter(('É', 'A'))));

    let board = Plugboard::new(&vec![('A', 'É')]);

    assert!(board.is_err());
    assert_eq!(board, Err(PlugboardError::InvalidCharacter(('A', 'É'))));

    let board = Plugboard::new(&vec![('Ö', 'É')]);

    assert!(board.is_err());
    assert_eq!(board, Err(PlugboardError::InvalidCharacter(('Ö', 'É'))));

    let board = Plugboard::new(&vec![('A', 'F'), ('A', 'E')]);

    assert!(board.is_err());
    assert_eq!(board, Err(PlugboardError::CharacterAlreadyWired('A')));

    let board = Plugboard::new(&vec![('A', 'F'), ('E', 'F')]);

    assert!(board.is_err());
    assert_eq!(board, Err(PlugboardError::CharacterAlreadyWired('F')));
}

#[test]
fn test_one() {
    let board = Plugboard::new(&vec![('A', 'E')]).unwrap();

    assert_eq!(board.transpose('A'), 'E');
    assert_eq!(board.transpose('E'), 'A');
    assert_eq!(board.transpose('Z'), 'Z');
}

#[test]
fn test_many() {
    let board = Plugboard::new(&vec![('A', 'E'), ('F', 'J'), ('M', 'G')]).unwrap();

    assert_eq!(board.transpose('A'), 'E');
    assert_eq!(board.transpose('E'), 'A');
    assert_eq!(board.transpose('F'), 'J');
    assert_eq!(board.transpose('J'), 'F');
    assert_eq!(board.transpose('M'), 'G');
    assert_eq!(board.transpose('G'), 'M');
    assert_eq!(board.transpose('Z'), 'Z');
}

#[test]
fn test_transpose_involution_all_letters() {
    let board =
        Plugboard::new(&vec![('A', 'E'), ('F', 'J'), ('M', 'G'), ('Q', 'Z'), ('B', 'Y')]).unwrap();

    for c in 'A'..='Z' {
        assert_eq!(board.transpose(board.transpose(c)), c);
    }
}

#[test]
fn test_empty_plugboard_is_identity() {
    let board = Plugboard::new(&vec![]).unwrap();

    for c in 'A'..='Z' {
        assert_eq!(board.transpose(c), c);
    }
}

#[test]
fn test_non_letter_passes_through() {
    let board = Plugboard::new(&vec![('A', 'E')]).unwrap();

    assert_eq!(board.transpose('a'), 'a');
    assert_eq!(board.transpose('9'), '9');
    assert_eq!(board.transpose(' '), ' ');
}

#[test]
fn test_full_thirteen_pairs() {
    let pairs: Vec<(char, char)> = vec![
        ('A', 'B'),
        ('C', 'D'),
        ('E', 'F'),
        ('G', 'H'),
        ('I', 'J'),
        ('K', 'L'),
        ('M', 'N'),
        ('O', 'P'),
        ('Q', 'R'),
        ('S', 'T'),
        ('U', 'V'),
        ('W', 'X'),
        ('Y', 'Z'),
    ];
    let board = Plugboard::new(&pairs).unwrap();

    for (l, r) in pairs {
        assert_eq!(board.transpose(l), r);
        assert_eq!(board.transpose(r), l);
    }
}

#[test]
fn test_from_map_symmetric() {
    let mut map: HashMap<char, char> = HashMap::new();
    map.insert('F', 'T');
    map.insert('T', 'F');

    let board = Plugboard::from_map(map);

    assert_eq!(board.transpose('F'), 'T');
    assert_eq!(board.transpose('T'), 'F');
    assert_eq!(board.transpose('A'), 'A');
}

#[test]
fn test_from_map_asymmetric_falls_back() {
    let mut map: HashMap<char, char> = HashMap::new();
    map.insert('F', 'T');

    let board = Plugboard::from_map(map);

    assert_eq!(board.transpose('F'), 'F');
    assert_eq!(board.transpose('T'), 'T');
}

#[test]
fn test_plugboard_error_messages() {
    assert_eq!(
        PlugboardError::InvalidCharacter(('É', 'A')).message(),
        "'É' or 'A' is not an uppercase ASCII letter"
    );
    assert_eq!(
        PlugboardError::CharacterAlreadyWired('F').message(),
        "'F' already wired to the board"
    );
}
