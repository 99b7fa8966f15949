use mesh_obj::error::ParseError;
use mesh_obj::mtl::parse_mtl;
use mesh_obj::scalar::parse_integer;
use mesh_obj::scalar::parse_number;
use mesh_obj::scalar::Scalar;
use mesh_obj::text::tokenize;

fn lines(text: &str) -> Vec<String> {
    text.lines().map(|l| l.to_string()).collect()
}

#[test]
fn tokenize_trims_and_splits() {
    assert_eq!(tokenize("  v 1 2  "), vec!["v", "1", "2"]);
    assert_eq!(tokenize("v 1 2 3"), vec!["v", "1", "2", "3"]);
}

#[test]
fn tokenize_keeps_empty_tokens_between_double_spaces() {
    assert_eq!(tokenize("v  1 2"), vec!["v", "", "1", "2"]);
}

#[test]
fn tokenize_blank_line_yields_one_empty_token() {
    assert_eq!(tokenize("   "), vec![""]);
    assert_eq!(tokenize(""), vec![""]);
}

#[test]
fn parse_number_plain_decimals() {
    assert_eq!(parse_number("0.25", 1).unwrap(), Scalar { micros: 250_000 });
    assert_eq!(parse_number("-1.5", 1).unwrap(), Scalar { micros: -1_500_000 });
    assert_eq!(parse_number("2", 1).unwrap(), Scalar { micros: 2_000_000 });
    assert_eq!(parse_number("+3", 1).unwrap(), Scalar { micros: 3_000_000 });
    assert_eq!(parse_number(".5", 1).unwrap(), Scalar { micros: 500_000 });
    assert_eq!(parse_number("5.", 1).unwrap(), Scalar { micros: 5_000_000 });
    assert_eq!(parse_number("-0", 1).unwrap(), Scalar { micros: 0 });
}

#[test]
fn parse_number_truncates_beyond_six_fraction_digits() {
    assert_eq!(parse_number("1.0000009", 1).unwrap(), Scalar { micros: 1_000_000 });
    assert_eq!(parse_number("0.1234567", 1).unwrap(), Scalar { micros: 123_456 });
}

#[test]
fn parse_number_saturates_out_of_range() {
    assert_eq!(parse_number("10000000000000", 1).unwrap(), Scalar { micros: i64::MAX });
    assert_eq!(parse_number("-10000000000000", 1).unwrap(), Scalar { micros: i64::MIN });
}

#[test]
fn parse_number_rejects_malformed_tokens() {
    for bad in ["", "a", "1.2.3", "--1", "1e5", ".", "+", "1,5", " 1"] {
        match parse_number(bad, 42) {
            Err(ParseError::NumericParseError { line, token }) => {
                assert_eq!(line, 42);
                assert_eq!(token, bad);
            },
            other => panic!("{:?} accepted for {:?}", other, bad),
        }
    }
}

#[test]
fn parse_integer_handles_the_i32_range() {
    assert_eq!(parse_integer("7", 1).unwrap(), 7);
    assert_eq!(parse_integer("-3", 1).unwrap(), -3);
    assert_eq!(parse_integer("2147483647", 1).unwrap(), i32::MAX);
    assert_eq!(parse_integer("-2147483648", 1).unwrap(), i32::MIN);
    assert!(parse_integer("2147483648", 1).is_err());
    assert!(parse_integer("-2147483649", 1).is_err());
    assert!(parse_integer("", 1).is_err());
    assert!(parse_integer("1.5", 1).is_err());
}

#[test]
fn one_minus_flips_around_one_unit() {
    let v = Scalar { micros: 750_000 };
    assert_eq!(v.one_minus(), Scalar { micros: 250_000 });
    let w = Scalar { micros: -250_000 };
    assert_eq!(w.one_minus(), Scalar { micros: 1_250_000 });
}

#[test]
fn mtl_two_materials_in_file_order() {
    let text = "newmtl red\n\
                Ka 0.1 0.2 0.3\n\
                Kd 1 0 0\n\
                Ks 0.5 0.5 0.5\n\
                Ns 10\n\
                d 0.8\n\
                map_Kd red.png\n\
                newmtl blue\n\
                Kd 0 0 1\n\
                Tr 0.5\n\
                map_bump bb.png\n";
    let mats = parse_mtl("m.mtl", &lines(text)).unwrap();
    assert_eq!(mats.len(), 2);
    assert_eq!(mats[0].material_name, "red");
    assert_eq!(mats[0].ambient.x, Scalar { micros: 100_000 });
    assert_eq!(mats[0].ambient.z, Scalar { micros: 300_000 });
    assert_eq!(mats[0].diffuse.x, Scalar { micros: 1_000_000 });
    assert_eq!(mats[0].specular.y, Scalar { micros: 500_000 });
    assert_eq!(mats[0].shininess, Scalar { micros: 10_000_000 });
    assert_eq!(mats[0].alpha, Scalar { micros: 800_000 });
    assert_eq!(mats[0].diffuse_filename, "red.png");
    assert_eq!(mats[0].ambient_filename, "");
    assert_eq!(mats[1].material_name, "blue");
    assert_eq!(mats[1].diffuse.z, Scalar { micros: 1_000_000 });
    assert_eq!(mats[1].alpha, Scalar { micros: 500_000 });
    assert_eq!(mats[1].bumpmap_filename, "bb.png");
}

#[test]
fn mtl_channels_before_first_newmtl_stay_on_that_material() {
    let text = "Ka 0.1 0.1 0.1\nnewmtl late\nKd 1 1 1\n";
    let mats = parse_mtl("m.mtl", &lines(text)).unwrap();
    assert_eq!(mats.len(), 1);
    assert_eq!(mats[0].material_name, "late");
    assert_eq!(mats[0].ambient.x, Scalar { micros: 100_000 });
}

#[test]
fn mtl_without_newmtl_yields_no_materials() {
    let text = "Ka 0.1 0.1 0.1\n# comment\n\n";
    let mats = parse_mtl("m.mtl", &lines(text)).unwrap();
    assert_eq!(mats.len(), 0);
}

#[test]
fn mtl_unknown_directive_is_a_format_error_with_the_raw_line() {
    let text = "newmtl red\nshiny very much\n";
    match parse_mtl("m.mtl", &lines(text)) {
        Err(ParseError::FormatError { filename, line, text }) => {
            assert_eq!(filename, "m.mtl");
            assert_eq!(line, 2);
            assert_eq!(text, "shiny very much");
        },
        other => panic!("unexpected: {:?}", other),
    }
}

#[test]
fn mtl_wrong_arity_is_a_format_error() {
    let text = "newmtl red\nKa 1 2\n";
    match parse_mtl("m.mtl", &lines(text)) {
        Err(ParseError::FormatError { line, .. }) => assert_eq!(line, 2),
        other => panic!("unexpected: {:?}", other),
    }
}

#[test]
fn mtl_bad_number_is_a_numeric_error_with_the_token() {
    let text = "newmtl red\nNs much\n";
    match parse_mtl("m.mtl", &lines(text)) {
        Err(ParseError::NumericParseError { line, token }) => {
            assert_eq!(line, 2);
            assert_eq!(token, "much");
        },
        other => panic!("unexpected: {:?}", other),
    }
}

#[test]
fn mtl_ignored_directives_have_no_effect() {
    let text = "newmtl red\nillum 2\nNi 1.45\nTf 1 1 1\nPr 0.5\naniso 0.2\nnorm n.png\n";
    let mats = parse_mtl("m.mtl", &lines(text)).unwrap();
    assert_eq!(mats.len(), 1);
    assert_eq!(mats[0].material_name, "red");
    assert_eq!(mats[0].bumpmap_filename, "");
}

#[test]
fn mtl_comments_and_blanks_are_skipped_but_count_lines() {
    let text = "# catalogue\n\nnewmtl red\n\nbroken directive\n";
    match parse_mtl("m.mtl", &lines(text)) {
        Err(ParseError::FormatError { line, .. }) => assert_eq!(line, 5),
        other => panic!("unexpected: {:?}", other),
    }
}

#[test]
fn tokenize_trims_tabs_and_carriage_returns() {
    assert_eq!(tokenize("\tv 1\r"), vec!["v", "1"]);
}

#[test]
fn mtl_bump_alias_sets_the_bump_map() {
    let mats = parse_mtl("m.mtl", &lines("newmtl red\nbump b.png\n")).unwrap();
    assert_eq!(mats[0].bumpmap_filename, "b.png");
}

#[test]
fn mtl_decal_is_recognized_and_ignored() {
    let mats = parse_mtl("m.mtl", &lines("newmtl red\ndecal d.png\n")).unwrap();
    assert_eq!(mats.len(), 1);
    assert_eq!(mats[0].bumpmap_filename, "");
}
