use opengl_project_generator::naming::parse_cpp_standard;

#[test]
fn rejects_cpp_standards_cmake_would_not_accept() {
    assert_eq!(parse_cpp_standard("c++20"), 20);
    assert_eq!(parse_cpp_standard("c++23"), 23);
    assert_eq!(parse_cpp_standard("gnu++17"), 17);
    assert_eq!(parse_cpp_standard("c++21"), 17);
    assert_eq!(parse_cpp_standard("nonsense"), 17);
}

#[test]
fn reads_every_accepted_standard() {
    for n in [11u32, 14, 17, 20, 23, 26] {
        assert_eq!(parse_cpp_standard(&format!("c++{}", n)), n);
    }
}

#[test]
fn collects_digits_from_anywhere_in_the_value() {
    assert_eq!(parse_cpp_standard("2x0"), 20);
    assert_eq!(parse_cpp_standard("c++0014"), 14);
    assert_eq!(parse_cpp_standard(" 2 6 "), 26);
    assert_eq!(parse_cpp_standard("c++1a4"), 14);
}

#[test]
fn falls_back_when_there_is_no_number_or_it_is_too_large() {
    assert_eq!(parse_cpp_standard(""), 17);
    assert_eq!(parse_cpp_standard("c++"), 17);
    assert_eq!(parse_cpp_standard("c++98"), 17);
    assert_eq!(parse_cpp_standard("c++0"), 17);
    assert_eq!(parse_cpp_standard("99999999999999999999920"), 17);
    assert_eq!(parse_cpp_standard("4294967296"), 17);
    assert_eq!(parse_cpp_standard("٢٠"), 17);
}

#[test]
fn the_standard_read_is_always_accepted() {
    for v in ["", "c++20", "gnu++2b", "23", "x11y", "c++03", "c++26", "17.5"] {
        let n = parse_cpp_standard(v);
        assert!([11, 14, 17, 20, 23, 26].contains(&n), "{v}");
    }
}
