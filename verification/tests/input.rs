use moldyn::error::ConfigError;
use moldyn::io::input::first_node;
use moldyn::io::input::load_atoms;
use moldyn::io::input::parse_yaml;
use moldyn::io::input::same_text;
use moldyn::io::input::shallow;
use moldyn::io::input::to_number;
use moldyn::io::input::to_numbers;
use moldyn::io::input::to_plain_number;
use moldyn::io::input::to_vec3;
use moldyn::io::input::Number;
use moldyn::system::atom::find_atomic_number;
use moldyn::system::atom::stands_from_first_symbol;
use moldyn::system::atom::Atom;
use moldyn::system::atom::Mass;
use yaml_rust::Yaml;

fn decimal(text: &str) -> Number {
    Number::Decimal(text.to_string())
}

#[test]
fn script_gives_its_first_document() {
    let node = parse_yaml("a: 1\nb: [1.5, two]\n---\nc: 3\n").unwrap();
    assert_eq!(node["a"], Yaml::Integer(1));
    assert_eq!(node["b"][0], Yaml::Real("1.5".to_string()));
    assert_eq!(node["b"][1], Yaml::String("two".to_string()));
    assert!(node["c"].is_badvalue());
}

#[test]
fn script_without_a_document_is_unreadable() {
    assert_eq!(parse_yaml(""), Err(ConfigError::Unreadable));
}

#[test]
fn ill_formed_script_is_unreadable() {
    assert_eq!(parse_yaml("a: [1, 2"), Err(ConfigError::Unreadable));
    assert_eq!(parse_yaml("a: b: c: d"), Err(ConfigError::Unreadable));
}

#[test]
fn deeply_nested_script_is_unreadable() {
    for depth in [40, 100, 1000, 20000] {
        let mut compact = "- ".repeat(depth);
        compact.push_str("a\n");
        assert!(!shallow(&compact));
        assert_eq!(parse_yaml(&compact), Err(ConfigError::Unreadable));
    }
    let mut indented = String::new();
    for level in 0..3000 {
        indented.push_str(&" ".repeat(level));
        indented.push_str("k:\n");
    }
    assert!(!shallow(&indented));
    assert_eq!(parse_yaml(&indented), Err(ConfigError::Unreadable));
}

#[test]
fn lone_carriage_return_is_unreadable() {
    let mut text = String::from("-\n");
    for level in 1..2000 {
        text.push('#');
        text.push_str(&"c".repeat(2 * level));
        text.push_str("\r-\n");
    }
    assert!(!shallow(&text));
    assert_eq!(parse_yaml(&text), Err(ConfigError::Unreadable));
    assert_eq!(parse_yaml("a: 1\rb: 2\n"), Err(ConfigError::Unreadable));
    assert_eq!(parse_yaml("a: 1\r"), Err(ConfigError::Unreadable));
    let windows = parse_yaml("a: 1\r\nb: 2\r\n").unwrap();
    assert_eq!(windows["a"], Yaml::Integer(1));
    assert_eq!(windows["b"], Yaml::Integer(2));
}

#[test]
fn weight_of_a_line() {
    assert!(shallow(""));
    assert!(shallow(&"x".repeat(100000)));
    assert!(shallow(&" ".repeat(64)));
    assert!(!shallow(&" ".repeat(65)));
    assert!(shallow(&"-".repeat(64)));
    assert!(!shallow(&"-:? \t".repeat(13)));
    assert!(shallow(&format!("{}\n{}", " ".repeat(64), ":".repeat(64))));
    assert!(!shallow(&format!("{}\n{}", " ".repeat(64), ":".repeat(65))));
    assert!(shallow(&format!("{}\u{e9}\u{10348}[]{{}},#", "?".repeat(64))));
    assert!(shallow(&"- {name: Ar, position: [0.0, -1.5, 2.0], mass: 39.948}\n".repeat(5000)));
}

#[test]
fn shallow_script_at_its_limit_is_read() {
    let mut text = String::new();
    for level in 0..31 {
        text.push_str(&" ".repeat(2 * level));
        text.push_str("k:\n");
        text.push_str(&" ".repeat(2 * level));
        text.push_str("-\n");
    }
    text.push_str(&" ".repeat(62));
    text.push_str(&"[".repeat(255));
    text.push_str("a");
    text.push_str(&"]".repeat(255));
    text.push_str("\n");
    assert!(shallow(&text));
    let mut node = &parse_yaml(&text).unwrap();
    let mut depth = 0;
    while !node["k"].is_badvalue() {
        node = &node["k"][0];
        depth += 1;
    }
    assert_eq!(depth, 31);
    let compact = format!("{}a\n", "- ".repeat(32));
    assert!(shallow(&compact));
    assert!(parse_yaml(&compact).is_ok());
    let too_flow = format!("{}a{}\n", "[".repeat(256), "]".repeat(256));
    assert!(shallow(&too_flow));
    assert_eq!(parse_yaml(&too_flow), Err(ConfigError::Unreadable));
}

#[test]
fn odd_scripts_are_read_or_unreadable() {
    let alphabet: Vec<char> = "-?:[]{},&*!|>'\"%@`#~=. \n\tab01e\u{e9}".chars().collect();
    let mut seed: u64 = 0x2545f4914f6cdd1d;
    let mut read = 0;
    for _ in 0..40000 {
        let mut text = String::new();
        seed = seed.wrapping_mul(6364136223846793005).wrapping_add(1442695040888963407);
        let length = (seed >> 59) as usize + 1;
        for _ in 0..length {
            seed = seed.wrapping_mul(6364136223846793005).wrapping_add(1442695040888963407);
            text.push(alphabet[(seed >> 33) as usize % alphabet.len()]);
        }
        if parse_yaml(&text).is_ok() {
            read += 1;
        }
    }
    assert!(read > 0);
}

#[test]
fn odd_documents_are_read_or_unreadable() {
    let pieces = [
        "- ", "-", "k: ", "k:", "? ", ": ", ":", "[", "]", "{", "}", ", ", "&a ", "*a", "*b ",
        "!!str ", "!!int ", "!!float ", "!!bool ", "!t ", "'q'", "\"q\"", "'", "\"", "| ", "|",
        "> ", ">-", "#c", "\n", "\n", "\n  ", "\n    ", "\n ", "  ", " ", "1", "2.5", "true", "~",
        "---", "...", "%YAML 1.2", "%TAG ! x", "\t", "\r\n", "a", "\\", "\\x41", "\u{e9}", "<<",
        "=", "@", "`",
    ];
    let mut seed: u64 = 0x9e3779b97f4a7c15;
    let mut read = 0;
    let mut refused = 0;
    for _ in 0..60000 {
        let mut text = String::new();
        seed = seed.wrapping_mul(6364136223846793005).wrapping_add(1442695040888963407);
        let length = (seed >> 60) as usize + 1;
        for _ in 0..length {
            seed = seed.wrapping_mul(6364136223846793005).wrapping_add(1442695040888963407);
            text.push_str(pieces[(seed >> 33) as usize % pieces.len()]);
        }
        match parse_yaml(&text) {
            Ok(_) => read += 1,
            Err(error) => {
                assert_eq!(error, ConfigError::Unreadable);
                refused += 1;
            }
        }
    }
    assert!(read > 1000);
    assert!(refused > 1000);
}

#[test]
fn awkward_scripts_are_read_or_unreadable() {
    for text in [
        "\"\\xZZ\"", "\"\\x4\"", "\"\\U00110000\"", "\"\\ud800\"", "\"\\uD800\\uDC00\"",
        "\"\\", "'", "[", "{", "]", "}", "&", "*", "!", "!!", "|", ">", "%", "%YAML", "- ? : ",
        "? [", "&a [*a]", "a: &x [*x, *x]", "*a: *a", "? ? ? a", ": : :", "- - : - ?", "a: b: c",
        "{a: [b, {c: [d]}]}", "[a, b", "{a: b", "a:\n- b\n- c\nd: e", "|\n a\n  b\n c", ">+9\n a",
        "|0\n a", "--- a\n--- b\n...\n", "--- |\n---", "\u{feff}a: 1", "a: !!int x", "!!float .",
        "!!bool yes", "!!null a", "&a", "&a *a", "- &a\n- *a", "0x", "0o", "+", "..", ".inf", "~",
        "\0", "a\0b", "k: \0", "\u{85}", "\u{2028}a: b", "a: 'b\n\n  c'", "\"a\\\nb\"",
    ] {
        match parse_yaml(text) {
            Ok(_) => {}
            Err(error) => assert_eq!(error, ConfigError::Unreadable, "{:?}", text),
        }
    }
}

#[test]
fn first_node_of_a_list() {
    assert_eq!(first_node(vec![]), Err(ConfigError::Unreadable));
    assert_eq!(first_node(vec![Yaml::Integer(4), Yaml::Null]), Ok(Yaml::Integer(4)));
}

#[test]
fn texts_are_compared_letter_by_letter() {
    assert!(same_text("verlet", "verlet"));
    assert!(same_text("", ""));
    assert!(!same_text("verlet", "Verlet"));
    assert!(!same_text("lj", "lj "));
}

#[test]
fn numbers_are_kept_as_written() {
    assert_eq!(to_number(&Yaml::Real("1.50e-3".to_string())), Some(decimal("1.50e-3")));
    assert_eq!(to_number(&Yaml::String("39.948".to_string())), Some(decimal("39.948")));
    assert_eq!(to_number(&Yaml::Integer(-7)), Some(Number::Integer(-7)));
    assert_eq!(to_number(&Yaml::Boolean(true)), None);
    assert_eq!(to_number(&Yaml::Null), None);
    assert_eq!(to_number(&Yaml::BadValue), None);
    assert_eq!(to_number(&Yaml::Array(vec![Yaml::Integer(1)])), None);
    assert_eq!(to_number(&Yaml::Alias(0)), None);
    assert_eq!(to_number(&parse_yaml("a: 1").unwrap()), None);
}

#[test]
fn string_that_is_no_numeral_is_no_number() {
    let node = parse_yaml("[0, 0, no]").unwrap();
    assert_eq!(to_vec3(&node), Err(ConfigError::UnknownType));
    assert_eq!(to_number(&Yaml::String("1.5 m".to_string())), None);
    assert_eq!(to_number(&Yaml::String("".to_string())), None);
    assert_eq!(to_number(&Yaml::Real("1,5".to_string())), None);
    assert_eq!(to_plain_number(&Yaml::Real("fast".to_string())), None);
    assert_eq!(to_number(&Yaml::String(".inf".to_string())), Some(decimal(".inf")));
    assert_eq!(to_plain_number(&Yaml::Real("-1e-3".to_string())), Some(decimal("-1e-3")));
}

#[test]
fn plain_numbers_leave_strings_out() {
    assert_eq!(to_plain_number(&Yaml::Real("2.5".to_string())), Some(decimal("2.5")));
    assert_eq!(to_plain_number(&Yaml::Integer(3)), Some(Number::Integer(3)));
    assert_eq!(to_plain_number(&Yaml::String("2.5".to_string())), None);
    assert_eq!(to_plain_number(&Yaml::BadValue), None);
}

#[test]
fn list_of_numbers_of_the_right_length() {
    let node = parse_yaml("[1, 2.5, '3']").unwrap();
    assert_eq!(
        to_numbers(&node, 3),
        Ok(vec![Number::Integer(1), decimal("2.5"), decimal("3")])
    );
    assert_eq!(to_vec3(&node), Ok(vec![Number::Integer(1), decimal("2.5"), decimal("3")]));
    assert_eq!(to_numbers(&Yaml::Array(vec![]), 0), Ok(vec![]));
}

#[test]
fn list_of_numbers_of_the_wrong_length() {
    let node = parse_yaml("[1, 2.5, '3']").unwrap();
    assert_eq!(to_numbers(&node, 2), Err(ConfigError::WrongLength));
    assert_eq!(to_numbers(&node, 4), Err(ConfigError::WrongLength));
    let short = parse_yaml("[1, true]").unwrap();
    assert_eq!(to_vec3(&short), Err(ConfigError::WrongLength));
}

#[test]
fn list_with_an_element_that_is_no_number() {
    let node = parse_yaml("[1, true, 3]").unwrap();
    assert_eq!(to_numbers(&node, 3), Err(ConfigError::UnknownType));
    let nested = parse_yaml("[1, 2, [3]]").unwrap();
    assert_eq!(to_numbers(&nested, 3), Err(ConfigError::UnknownType));
}

#[test]
fn node_that_is_no_list_of_numbers() {
    assert_eq!(to_numbers(&Yaml::Integer(3), 1), Err(ConfigError::Malformed));
    assert_eq!(to_numbers(&Yaml::BadValue, 3), Err(ConfigError::Malformed));
    let hash = parse_yaml("a: 1").unwrap();
    assert_eq!(to_numbers(&hash, 1), Err(ConfigError::Malformed));
}

#[test]
fn default_atom() {
    let atom = Atom::new();
    assert_eq!(atom.id, 0);
    assert_eq!(atom.name, "NaN");
    assert_eq!(
        atom.position,
        vec![Number::Integer(0), Number::Integer(0), Number::Integer(0)]
    );
    assert_eq!(atom.velocity, None);
    assert_eq!(atom.force, None);
    assert_eq!(atom.mass, Mass::Given(Number::Integer(1)));
    assert_eq!(atom.charge, None);
}

#[test]
fn atom_with_every_entry() {
    let node = parse_yaml(
        "name: Ar\nposition: [0.0, 1, 2.5]\nvelocity: [1.0, 0.0, 0.0]\nforce: [0, 0, 0.5]\nmass: 39.948\ncharge: -1\n",
    )
    .unwrap();
    let atom = Atom::from(&node).unwrap();
    assert_eq!(
        atom,
        Atom {
            id: 0,
            name: "Ar".to_string(),
            position: vec![decimal("0.0"), Number::Integer(1), decimal("2.5")],
            velocity: Some(vec![decimal("1.0"), decimal("0.0"), decimal("0.0")]),
            force: Some(vec![Number::Integer(0), Number::Integer(0), decimal("0.5")]),
            mass: Mass::Given(decimal("39.948")),
            charge: Some(Number::Integer(-1)),
        }
    );
}

#[test]
fn atom_without_mass_takes_it_from_its_element() {
    let argon = parse_yaml("name: Ar\nposition: [0, 0, 0]\n").unwrap();
    let atom = Atom::from(&argon).unwrap();
    assert_eq!(atom.mass, Mass::Element(18));
    assert_eq!(atom.velocity, None);
    assert_eq!(atom.force, None);
    assert_eq!(atom.charge, None);
    let hydrogen = parse_yaml("name: H\nposition: [0, 0, 0]\n").unwrap();
    assert_eq!(Atom::from(&hydrogen).unwrap().mass, Mass::Element(1));
    let oganesson = parse_yaml("name: Og\nposition: [0, 0, 0]\n").unwrap();
    assert_eq!(Atom::from(&oganesson).unwrap().mass, Mass::Element(118));
}

#[test]
fn atom_without_mass_and_without_element() {
    let node = parse_yaml("name: Xx\nposition: [0, 0, 0]\n").unwrap();
    assert_eq!(Atom::from(&node), Err(ConfigError::UnknownMass));
    let lower = parse_yaml("name: ar\nposition: [0, 0, 0]\n").unwrap();
    assert_eq!(Atom::from(&lower), Err(ConfigError::UnknownMass));
}

#[test]
fn atom_whose_name_stands_before_the_first_symbol() {
    for name in ["AR", "A", "AL", "Ab", "Aa", "AC", "'1'", "'0x'", "' Ar'", "'-'", "\"\\t\""] {
        let node = parse_yaml(&format!("name: {}\nposition: [0, 0, 0]\n", name)).unwrap();
        assert_eq!(Atom::from(&node), Err(ConfigError::UnknownMass), "{}", name);
    }
    let listed = parse_yaml("- {name: AR, position: [0, 0, 0]}\n").unwrap();
    assert_eq!(load_atoms(&listed), Err(ConfigError::UnknownMass));
    let given = parse_yaml("name: AR\nposition: [0, 0, 0]\nmass: 2.5\n").unwrap();
    assert_eq!(Atom::from(&given).unwrap().mass, Mass::Given(decimal("2.5")));
}

#[test]
fn elements_by_their_symbols() {
    assert_eq!(find_atomic_number("Ac"), Some(89));
    assert_eq!(find_atomic_number("Ag"), Some(47));
    assert_eq!(find_atomic_number("Al"), Some(13));
    assert_eq!(find_atomic_number("Ar"), Some(18));
    assert_eq!(find_atomic_number("B"), Some(5));
    assert_eq!(find_atomic_number("H"), Some(1));
    assert_eq!(find_atomic_number("Og"), Some(118));
    assert_eq!(find_atomic_number("Zn"), Some(30));
    assert_eq!(find_atomic_number("Zr"), Some(40));
    for symbol in [
        "", "A", "AR", "Ab", "Aa", "AC", "1", " ", "@", "Ac ", "Ad", "Az", "Zz", "Zs", "ar", "h",
        "Hydrogen", "\u{e9}", "A\u{e9}", "\u{10348}", "z", "~",
    ] {
        assert_eq!(find_atomic_number(symbol), None, "{:?}", symbol);
    }
}

#[test]
fn texts_before_the_first_symbol() {
    for symbol in ["", "A", "AR", "AL", "Ab", "Aa", "AC", "Ab\u{e9}", "1", "9z", " Ar", "@c", "\t"] {
        assert!(!stands_from_first_symbol(symbol), "{:?}", symbol);
        assert!(symbol < "Ac");
    }
    for symbol in ["Ac", "Ac ", "Ad", "Ar", "A\u{e9}", "B", "Zr", "a", "\u{e9}", "\u{10348}", "Ac\u{0}"] {
        assert!(stands_from_first_symbol(symbol), "{:?}", symbol);
        assert!(symbol >= "Ac");
    }
}

#[test]
fn atom_with_a_mass_of_the_wrong_kind() {
    let node = parse_yaml("name: Ar\nposition: [0, 0, 0]\nmass: [1]\n").unwrap();
    assert_eq!(Atom::from(&node), Err(ConfigError::UnknownMass));
    let flag = parse_yaml("name: Ar\nposition: [0, 0, 0]\nmass: true\n").unwrap();
    assert_eq!(Atom::from(&flag), Err(ConfigError::UnknownMass));
}

#[test]
fn atom_with_a_mass_in_quotes() {
    let node = parse_yaml("name: Q\nposition: [0, 0, 0]\nmass: '12.5'\ncharge: '0.5'\n").unwrap();
    let atom = Atom::from(&node).unwrap();
    assert_eq!(atom.mass, Mass::Given(decimal("12.5")));
    assert_eq!(atom.charge, Some(decimal("0.5")));
}

#[test]
fn atom_with_a_mass_that_is_not_positive() {
    for mass in ["0", "0.0", "-1.5", "-3", "'0e3'", ".nan", "-.inf"] {
        let node =
            parse_yaml(&format!("name: Ar\nposition: [0, 0, 0]\nmass: {}\n", mass)).unwrap();
        assert_eq!(Atom::from(&node), Err(ConfigError::MassNotPositive), "{}", mass);
    }
    let text = parse_yaml("name: Ar\nposition: [0, 0, 0]\nmass: heavy\n").unwrap();
    assert_eq!(Atom::from(&text), Err(ConfigError::UnknownMass));
}

#[test]
fn atom_with_a_charge_of_any_sign() {
    let node = parse_yaml("name: Ar\nposition: [-1, 0, 0]\ncharge: -1.5\n").unwrap();
    let atom = Atom::from(&node).unwrap();
    assert_eq!(atom.charge, Some(decimal("-1.5")));
    assert_eq!(atom.position[0], Number::Integer(-1));
    let word = parse_yaml("name: Ar\nposition: [0, 0, 0]\ncharge: plus\n").unwrap();
    assert_eq!(Atom::from(&word), Err(ConfigError::IncorrectCharge));
}

#[test]
fn atom_with_a_charge_of_the_wrong_kind() {
    let node = parse_yaml("name: Ar\nposition: [0, 0, 0]\ncharge: [1]\n").unwrap();
    assert_eq!(Atom::from(&node), Err(ConfigError::IncorrectCharge));
}

#[test]
fn atom_without_a_name() {
    let node = parse_yaml("position: [0, 0, 0]\nmass: 1.0\n").unwrap();
    assert_eq!(Atom::from(&node), Err(ConfigError::Malformed));
    let number = parse_yaml("name: 3\nposition: [0, 0, 0]\nmass: 1.0\n").unwrap();
    assert_eq!(Atom::from(&number), Err(ConfigError::Malformed));
    let empty = parse_yaml("name: ''\nposition: [0, 0, 0]\nmass: 1.0\n").unwrap();
    assert_eq!(Atom::from(&empty), Err(ConfigError::Malformed));
}

#[test]
fn atom_without_a_position() {
    let node = parse_yaml("name: Ar\n").unwrap();
    assert_eq!(Atom::from(&node), Err(ConfigError::Malformed));
    let short = parse_yaml("name: Ar\nposition: [0, 0]\n").unwrap();
    assert_eq!(Atom::from(&short), Err(ConfigError::WrongLength));
    let flag = parse_yaml("name: Ar\nposition: [0, 0, true]\n").unwrap();
    assert_eq!(Atom::from(&flag), Err(ConfigError::UnknownType));
}

#[test]
fn atom_with_a_velocity_that_is_no_list() {
    let node = parse_yaml("name: Ar\nposition: [0, 0, 0]\nvelocity: 3\nforce: fast\n").unwrap();
    let atom = Atom::from(&node).unwrap();
    assert_eq!(atom.velocity, None);
    assert_eq!(atom.force, None);
}

#[test]
fn atom_with_a_faulty_velocity() {
    let node = parse_yaml("name: Ar\nposition: [0, 0, 0]\nvelocity: [1, 2]\n").unwrap();
    assert_eq!(Atom::from(&node), Err(ConfigError::WrongLength));
    let force = parse_yaml("name: Ar\nposition: [0, 0, 0]\nforce: [1, 2, ~]\n").unwrap();
    assert_eq!(Atom::from(&force), Err(ConfigError::UnknownType));
}

#[test]
fn first_fault_of_an_atom_decides() {
    let node = parse_yaml("position: [0, 0]\nvelocity: [1]\ncharge: [1]\n").unwrap();
    assert_eq!(Atom::from(&node), Err(ConfigError::WrongLength));
    let later = parse_yaml("name: Xx\nposition: [0, 0, 0]\ncharge: [1]\n").unwrap();
    assert_eq!(Atom::from(&later), Err(ConfigError::UnknownMass));
}

#[test]
fn atoms_are_numbered_in_their_order() {
    let node = parse_yaml(
        "- {name: Ar, position: [0, 0, 0]}\n- {name: He, position: [1, 0, 0]}\n- {name: Ne, position: [2, 0, 0]}\n",
    )
    .unwrap();
    let atoms = load_atoms(&node).unwrap();
    assert_eq!(atoms.len(), 3);
    assert_eq!(atoms[0].id, 0);
    assert_eq!(atoms[1].id, 1);
    assert_eq!(atoms[2].id, 2);
    assert_eq!(atoms[0].name, "Ar");
    assert_eq!(atoms[1].name, "He");
    assert_eq!(atoms[2].name, "Ne");
    assert_eq!(atoms[1].mass, Mass::Element(2));
    assert_eq!(atoms[2].position[0], Number::Integer(2));
}

#[test]
fn no_atoms_at_all() {
    assert_eq!(load_atoms(&Yaml::Array(vec![])), Ok(vec![]));
    assert_eq!(load_atoms(&Yaml::BadValue), Err(ConfigError::Malformed));
    assert_eq!(load_atoms(&Yaml::Integer(3)), Err(ConfigError::Malformed));
}

#[test]
fn first_faulty_atom_decides() {
    let node = parse_yaml(
        "- {name: Ar, position: [0, 0, 0]}\n- {name: Xx, position: [1, 0, 0]}\n- {name: Ne, position: [2, 0]}\n",
    )
    .unwrap();
    assert_eq!(load_atoms(&node), Err(ConfigError::UnknownMass));
}
