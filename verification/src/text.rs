//! Small operations on text that the rest of the library is written with.

use vstd::prelude::*;
use vstd::string::*;

verus! {

/// The texts of a list of strings.
pub open spec fn texts(strings: Seq<String>) -> Seq<Seq<char>> {
    strings.map_values(|string: String| string@)
}

/// The character that stands for a digit below ten.
pub open spec fn digit(value: nat) -> char {
    if value == 0 {
        '0'
    } else if value == 1 {
        '1'
    } else if value == 2 {
        '2'
    } else if value == 3 {
        '3'
    } else if value == 4 {
        '4'
    } else if value == 5 {
        '5'
    } else if value == 6 {
        '6'
    } else if value == 7 {
        '7'
    } else if value == 8 {
        '8'
    } else {
        '9'
    }
}

/// A number written in base ten, without sign or leading zeros.
pub open spec fn decimal(number: nat) -> Seq<char>
    decreases number,
{
    if number < 10 {
        seq![digit(number)]
    } else {
        decimal(number / 10) + seq![digit(number % 10)]
    }
}

/// The parts one after the other, with the separator between each two.
pub open spec fn joined(parts: Seq<Seq<char>>, separator: Seq<char>) -> Seq<char>
    decreases parts.len(),
{
    if parts.len() == 0 {
        Seq::empty()
    } else if parts.len() == 1 {
        parts[0]
    } else {
        joined(parts.drop_last(), separator) + separator + parts.last()
    }
}

/// `true` or `false`, spelled out.
pub open spec fn truth(flag: bool) -> Seq<char> {
    if flag {
        "true"@
    } else {
        "false"@
    }
}

fn digit_text(value: u64) -> (text: &'static str)
    requires
        value < 10,
    ensures
        text@ == seq![digit(value as nat)],
{
    proof {
        reveal_strlit("0");
        reveal_strlit("1");
        reveal_strlit("2");
        reveal_strlit("3");
        reveal_strlit("4");
        reveal_strlit("5");
        reveal_strlit("6");
        reveal_strlit("7");
        reveal_strlit("8");
        reveal_strlit("9");
    }
    let text = if value == 0 {
        "0"
    } else if value == 1 {
        "1"
    } else if value == 2 {
        "2"
    } else if value == 3 {
        "3"
    } else if value == 4 {
        "4"
    } else if value == 5 {
        "5"
    } else if value == 6 {
        "6"
    } else if value == 7 {
        "7"
    } else if value == 8 {
        "8"
    } else {
        "9"
    };
    text
}

/// Writes a number in base ten.
pub fn decimal_string(number: u64) -> (text: String)
    ensures
        text@ == decimal(number as nat),
{
    let mut rest: u64 = number / 10;
    let mut text = String::from_str(digit_text(number % 10));
    while rest > 0
        invariant
            rest > 0 ==> decimal(number as nat) == decimal(rest as nat) + text@,
            rest == 0 ==> decimal(number as nat) == text@,
        decreases rest,
    {
        let low = String::from_str(digit_text(rest % 10));
        text = low.concat(text.as_str());
        rest = rest / 10;
    }
    text
}

/// Spells out a truth value.
pub fn truth_string(flag: bool) -> (text: String)
    ensures
        text@ == truth(flag),
{
    if flag {
        String::from_str("true")
    } else {
        String::from_str("false")
    }
}

/// Whether two texts are the same, character by character.
pub fn same_text(left: &str, right: &str) -> (same: bool)
    ensures
        same == (left@ == right@),
{
    let left_owned = String::from_str(left);
    let right_owned = String::from_str(right);
    left_owned == right_owned
}

/// Joins the parts with a separator between each two of them.
pub fn join(parts: &Vec<String>, separator: &str) -> (text: String)
    ensures
        text@ == joined(texts(parts@), separator@),
{
    let mut text = String::new();
    let mut index: usize = 0;
    while index < parts.len()
        invariant
            index <= parts.len(),
            text@ == joined(texts(parts@).subrange(0, index as int), separator@),
        decreases parts.len() - index,
    {
        let ghost done = texts(parts@).subrange(0, index as int);
        let ghost next = texts(parts@).subrange(0, index + 1);
        proof {
            assert(next.drop_last() =~= done);
        }
        if index > 0 {
            text.append(separator);
        }
        text.append(parts[index].as_str());
        index = index + 1;
    }
    assert(texts(parts@).subrange(0, index as int) =~= texts(parts@));
    text
}

/// Whether a pattern stands in a text at a position.
pub open spec fn occurs_at(text: Seq<char>, pattern: Seq<char>, at: int) -> bool {
    0 <= at && at + pattern.len() <= text.len() && text.subrange(at, at + pattern.len())
        == pattern
}

/// Whether a pattern stands somewhere in a text.
pub open spec fn occurs_in(text: Seq<char>, pattern: Seq<char>) -> bool {
    exists|at: int| occurs_at(text, pattern, at)
}

/// The characters of a text, one by one.
pub fn characters(text: &str) -> (all: Vec<char>)
    ensures
        all@ == text@,
{
    let length = text.unicode_len();
    let mut all: Vec<char> = Vec::new();
    let mut index: usize = 0;
    while index < length
        invariant
            index <= length == text@.len(),
            all@ == text@.subrange(0, index as int),
        decreases length - index,
    {
        all.push(text.get_char(index));
        index = index + 1;
    }
    all
}

fn matches_at(text: &Vec<char>, pattern: &Vec<char>, at: usize) -> (found: bool)
    requires
        at + pattern@.len() <= text@.len(),
    ensures
        found == occurs_at(text@, pattern@, at as int),
{
    let mut index: usize = 0;
    while index < pattern.len()
        invariant
            index <= pattern.len(),
            at + pattern.len() <= text.len(),
            forall|earlier: int| 0 <= earlier < index ==> text@[at + earlier] == pattern@[earlier],
        decreases pattern.len() - index,
    {
        if text[at + index] != pattern[index] {
            return false;
        }
        index = index + 1;
    }
    assert(text@.subrange(at as int, at + pattern@.len()) =~= pattern@);
    true
}

/// Whether a pattern stands somewhere in a text.
pub fn contains(text: &str, pattern: &str) -> (found: bool)
    ensures
        found == occurs_in(text@, pattern@),
{
    let searched = characters(text);
    let sought = characters(pattern);
    if sought.len() > searched.len() {
        return false;
    }
    let last = searched.len() - sought.len();
    let mut at: usize = 0;
    loop
        invariant
            at <= last,
            last + sought@.len() == searched@.len(),
            searched@ == text@,
            sought@ == pattern@,
            forall|earlier: int| 0 <= earlier < at ==> !occurs_at(text@, pattern@, earlier),
        decreases last - at,
    {
        if matches_at(&searched, &sought, at) {
            return true;
        }
        if at == last {
            return false;
        }
        at = at + 1;
    }
}

/// A copy of a list of strings.
pub fn clone_texts(strings: &Vec<String>) -> (copy: Vec<String>)
    ensures
        copy@ == strings@,
{
    let mut copy: Vec<String> = Vec::new();
    let mut index: usize = 0;
    while index < strings.len()
        invariant
            index <= strings.len(),
            copy@ == strings@.subrange(0, index as int),
        decreases strings.len() - index,
    {
        copy.push(strings[index].clone());
        index = index + 1;
    }
    copy
}

} // verus!
