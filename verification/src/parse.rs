//! Reading coffees and sizes from the names that the shop's links carry.
use crate::model::{Coffee, Size};
use vstd::prelude::*;
use vstd::string::*;

verus! {

/// The coffee a name stands for; any name the shop does not use reads as Arabica.
pub open spec fn spec_parse_coffee(name: Seq<char>) -> Coffee {
    if name == Coffee::Columbian.spec_to_str() {
        Coffee::Columbian
    } else if name == Coffee::Arabica.spec_to_str() {
        Coffee::Arabica
    } else if name == Coffee::Robusta.spec_to_str() {
        Coffee::Robusta
    } else if name == Coffee::Excelsa.spec_to_str() {
        Coffee::Excelsa
    } else if name == Coffee::BreakfastBlend.spec_to_str() {
        Coffee::BreakfastBlend
    } else if name == Coffee::MidnightRoast.spec_to_str() {
        Coffee::MidnightRoast
    } else {
        Coffee::Arabica
    }
}

/// The size a name stands for; any name the shop does not use reads as Medium.
pub open spec fn spec_parse_size(name: Seq<char>) -> Size {
    if name == Size::Small.spec_to_str() {
        Size::Small
    } else if name == Size::Medium.spec_to_str() {
        Size::Medium
    } else if name == Size::Large.spec_to_str() {
        Size::Large
    } else {
        Size::Medium
    }
}

/// Whether two pieces of text hold the same characters.
fn same_text(a: &str, b: &str) -> (r: bool)
    ensures
        r == (a@ == b@),
{
    let n: usize = a.unicode_len();
    if n != b.unicode_len() {
        return false;
    }
    let mut i: usize = 0;
    while i < n
        invariant
            n == a@.len(),
            n == b@.len(),
            i <= n,
            forall|j: int| 0 <= j < i ==> a@[j] == b@[j],
        decreases n - i,
    {
        if a.get_char(i) != b.get_char(i) {
            return false;
        }
        i = i + 1;
    }
    proof {
        assert(a@ =~= b@);
    }
    true
}

/// Reads a coffee from its name; an unknown name gives Arabica.
pub fn parse_coffee(s: &str) -> (r: Coffee)
    ensures
        r == spec_parse_coffee(s@),
{
    if same_text(s, Coffee::Columbian.to_str()) {
        Coffee::Columbian
    } else if same_text(s, Coffee::Arabica.to_str()) {
        Coffee::Arabica
    } else if same_text(s, Coffee::Robusta.to_str()) {
        Coffee::Robusta
    } else if same_text(s, Coffee::Excelsa.to_str()) {
        Coffee::Excelsa
    } else if same_text(s, Coffee::BreakfastBlend.to_str()) {
        Coffee::BreakfastBlend
    } else if same_text(s, Coffee::MidnightRoast.to_str()) {
        Coffee::MidnightRoast
    } else {
        Coffee::Arabica
    }
}

/// Reads a size from its name; an unknown name gives Medium.
pub fn parse_size(s: &str) -> (r: Size)
    ensures
        r == spec_parse_size(s@),
{
    if same_text(s, Size::Small.to_str()) {
        Size::Small
    } else if same_text(s, Size::Medium.to_str()) {
        Size::Medium
    } else if same_text(s, Size::Large.to_str()) {
        Size::Large
    } else {
        Size::Medium
    }
}

/// Reading back the name of a coffee gives that coffee.
pub proof fn lemma_parse_coffee_reads_back(c: Coffee)
    ensures
        spec_parse_coffee(c.spec_to_str()) == c,
{
    reveal_strlit("Columbian");
    reveal_strlit("Arabica");
    reveal_strlit("Robusta");
    reveal_strlit("Excelsa");
    reveal_strlit("BreakfastBlend");
    reveal_strlit("MidnightRoast");
    let names = seq![
        "Columbian"@,
        "Arabica"@,
        "Robusta"@,
        "Excelsa"@,
        "BreakfastBlend"@,
        "MidnightRoast"@,
    ];
    assert forall|i: int, j: int| 0 <= i < j < 6 implies names[i] != names[j] by {
        assert(names[i].len() != names[j].len() || names[i][0] != names[j][0]);
    }
}

/// A name that is none of the six coffee names reads as Arabica.
pub proof fn lemma_unknown_coffee_is_arabica(name: Seq<char>)
    requires
        name != "Columbian"@,
        name != "Arabica"@,
        name != "Robusta"@,
        name != "Excelsa"@,
        name != "BreakfastBlend"@,
        name != "MidnightRoast"@,
    ensures
        spec_parse_coffee(name) == Coffee::Arabica,
{
}

/// A name that is none of the three size names reads as Medium.
pub proof fn lemma_unknown_size_is_medium(name: Seq<char>)
    requires
        name != "Small"@,
        name != "Medium"@,
        name != "Large"@,
    ensures
        spec_parse_size(name) == Size::Medium,
{
}

/// Reading back the name of a size gives that size.
pub proof fn lemma_parse_size_reads_back(s: Size)
    ensures
        spec_parse_size(s.spec_to_str()) == s,
{
    reveal_strlit("Small");
    reveal_strlit("Medium");
    reveal_strlit("Large");
    assert("Small"@.len() != "Medium"@.len());
    assert("Small"@ != "Large"@) by {
        assert("Small"@[0] != "Large"@[0]);
    }
    assert("Medium"@.len() != "Large"@.len());
}

} // verus!
