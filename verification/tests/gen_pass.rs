use rcli::process::gen_pass::process_genpass;

#[test]
fn test_genpass_length_and_charset() {
    let pass = process_genpass(32, true, true, true, true).unwrap();
    assert_eq!(pass.len(), 32);
    for b in pass.iter() {
        let upper = (65..=90).contains(b);
        let lower = (97..=122).contains(b);
        let digit = (48..=57).contains(b);
        let symbol = b"!#$%&*@^_".contains(b);
        assert!(upper || lower || digit || symbol);
    }
}

#[test]
fn test_genpass_single_class() {
    let pass = process_genpass(64, false, false, true, false).unwrap();
    assert_eq!(pass.len(), 64);
    for b in pass.iter() {
        assert!((48..=57).contains(b));
    }
}

#[test]
fn test_genpass_no_class_selected() {
    assert_eq!(
        process_genpass(16, false, false, false, false),
        Err("no character class selected")
    );
}

#[test]
fn test_genpass_zero_length() {
    assert_eq!(process_genpass(0, true, true, true, true), Ok(Vec::new()));
}
