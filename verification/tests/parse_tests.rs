use coffee_shop::model::{Coffee, Size};
use coffee_shop::parse::{parse_coffee, parse_size};

#[test]
fn parse_every_coffee_name() {
    assert_eq!(parse_coffee("Columbian"), Coffee::Columbian);
    assert_eq!(parse_coffee("Arabica"), Coffee::Arabica);
    assert_eq!(parse_coffee("Robusta"), Coffee::Robusta);
    assert_eq!(parse_coffee("Excelsa"), Coffee::Excelsa);
    assert_eq!(parse_coffee("BreakfastBlend"), Coffee::BreakfastBlend);
    assert_eq!(parse_coffee("MidnightRoast"), Coffee::MidnightRoast);
}

#[test]
fn parse_coffee_reads_back_its_name() {
    let all = [
        Coffee::Columbian,
        Coffee::Arabica,
        Coffee::Robusta,
        Coffee::Excelsa,
        Coffee::BreakfastBlend,
        Coffee::MidnightRoast,
    ];
    for c in all {
        assert_eq!(parse_coffee(c.to_str()), c);
    }
}

#[test]
fn parse_unknown_coffee_is_arabica() {
    assert_eq!(parse_coffee(""), Coffee::Arabica);
    assert_eq!(parse_coffee("Latte"), Coffee::Arabica);
    assert_eq!(parse_coffee("robusta"), Coffee::Arabica);
    assert_eq!(parse_coffee("Robustb"), Coffee::Arabica);
    assert_eq!(parse_coffee("Columbian "), Coffee::Arabica);
    assert_eq!(parse_coffee("Excelsá"), Coffee::Arabica);
}

#[test]
fn parse_every_size_name() {
    assert_eq!(parse_size("Small"), Size::Small);
    assert_eq!(parse_size("Medium"), Size::Medium);
    assert_eq!(parse_size("Large"), Size::Large);
    for s in [Size::Small, Size::Medium, Size::Large] {
        assert_eq!(parse_size(s.to_str()), s);
    }
}

#[test]
fn parse_unknown_size_is_medium() {
    assert_eq!(parse_size(""), Size::Medium);
    assert_eq!(parse_size("small"), Size::Medium);
    assert_eq!(parse_size("Huge"), Size::Medium);
    assert_eq!(parse_size("Larger"), Size::Medium);
}
